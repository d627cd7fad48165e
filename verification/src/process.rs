pub mod gen_pass;
pub mod http_serve;
pub mod jwt;
pub mod text;
