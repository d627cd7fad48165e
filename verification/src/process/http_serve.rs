use vstd::prelude::*;

verus! {

/// One answer of the static file server: an HTTP status, a content type and
/// a body.
#[derive(Debug)]
pub struct FileResponse {
    pub status: u16,
    pub content_type: &'static str,
    pub body: String,
}

/// What the disk showed for a requested path, gathered by the caller before
/// the answer is decided.
#[derive(Debug)]
pub enum FileLookup {
    /// No such path.
    Missing,
    /// A directory: the href of its parent, then each entry as the pair of
    /// its href (path from the served root) and its display name.
    Directory(String, Vec<(String, String)>),
    /// A regular file and its content.
    Content(String),
    /// A regular file that could not be read, with the error's text.
    Unreadable(String),
}

/// One listing line of a directory page.
pub open spec fn spec_li(href: Seq<char>, label: Seq<char>) -> Seq<char> {
    "<li><a href=\"/"@ + href + "\">"@ + label + "</a></li>"@
}

/// The listing lines of a directory page, in order.
pub open spec fn spec_entries_html(entries: Seq<(String, String)>) -> Seq<char>
    decreases entries.len(),
{
    if entries.len() == 0 {
        Seq::<char>::empty()
    } else {
        spec_entries_html(entries.drop_last()) + spec_li(entries.last().0@, entries.last().1@)
    }
}

/// The whole directory page: a link to the parent, then one line per entry.
pub open spec fn spec_dir_html(parent_href: Seq<char>, entries: Seq<(String, String)>) -> Seq<
    char,
> {
    "<html><body><ul>"@ + spec_li(parent_href, "../"@) + spec_entries_html(entries)
        + "</ul></body></html>"@
}

/// Appends one listing line to the page under construction.
fn push_li(html: &mut String, href: &str, label: &str)
    ensures
        final(html)@ == old(html)@ + spec_li(href@, label@),
{
    html.append("<li><a href=\"/");
    html.append(href);
    html.append("\">");
    html.append(label);
    html.append("</a></li>");
    proof {
        assert(html@ =~= old(html)@ + spec_li(href@, label@));
    }
}

/// Renders the HTML listing of a directory: a link to the parent, then one
/// line per entry, in the order given.
pub fn dir_listing_html(parent_href: &str, entries: &Vec<(String, String)>) -> (html: String)
    ensures
        html@ == spec_dir_html(parent_href@, entries@),
{
    let mut html = String::from_str("<html><body><ul>");
    push_li(&mut html, parent_href, "../");
    let mut i: usize = 0;
    proof {
        assert(html@ =~= "<html><body><ul>"@ + spec_li(parent_href@, "../"@)
            + spec_entries_html(entries@.subrange(0, 0)));
    }
    while i < entries.len()
        invariant
            i <= entries@.len(),
            html@ == "<html><body><ul>"@ + spec_li(parent_href@, "../"@) + spec_entries_html(
                entries@.subrange(0, i as int),
            ),
        decreases entries@.len() - i,
    {
        let pair = &entries[i];
        push_li(&mut html, pair.0.as_str(), pair.1.as_str());
        proof {
            assert(entries@.subrange(0, i + 1 as int).drop_last() =~= entries@.subrange(
                0,
                i as int,
            ));
            assert(entries@.subrange(0, i + 1 as int).last() == entries@[i as int]);
            assert(html@ =~= "<html><body><ul>"@ + spec_li(parent_href@, "../"@)
                + spec_entries_html(entries@.subrange(0, i + 1 as int)));
        }
        i += 1;
    }
    proof {
        assert(entries@.subrange(0, entries@.len() as int) =~= entries@);
    }
    html.append("</ul></body></html>");
    html
}

/// Decides the file server's answer from what the disk showed: a missing
/// path is 404 with a plain message naming it; a directory is 200 with its
/// HTML listing; a readable file is 200 with its content; an unreadable file
/// is 500 with the error's text.
pub fn file_response(path: &str, lookup: FileLookup) -> (r: FileResponse)
    ensures
        lookup is Missing ==> r.status == 404 && r.content_type@ == "text/plain"@ && r.body@
            == "File "@ + path@ + " not found"@,
        lookup matches FileLookup::Directory(parent_href, entries) ==> r.status == 200
            && r.content_type@ == "text/html"@ && r.body@ == spec_dir_html(
            parent_href@,
            entries@,
        ),
        lookup matches FileLookup::Content(content) ==> r.status == 200 && r.content_type@
            == "text/plain"@ && r.body == content,
        lookup matches FileLookup::Unreadable(error_text) ==> r.status == 500 && r.content_type@
            == "text/plain"@ && r.body == error_text,
{
    match lookup {
        FileLookup::Missing => FileResponse {
            status: 404,
            content_type: "text/plain",
            body: String::from_str("File ").concat(path).concat(" not found"),
        },
        FileLookup::Directory(parent_href, entries) => FileResponse {
            status: 200,
            content_type: "text/html",
            body: dir_listing_html(parent_href.as_str(), &entries),
        },
        FileLookup::Content(content) => FileResponse {
            status: 200,
            content_type: "text/plain",
            body: content,
        },
        FileLookup::Unreadable(error_text) => FileResponse {
            status: 500,
            content_type: "text/plain",
            body: error_text,
        },
    }
}

} // verus!
