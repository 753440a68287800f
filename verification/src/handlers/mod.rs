//! The handlers that answer requests.

pub mod cgi_bin;
pub mod default;
pub mod envfile;
pub mod etc_passwd;
pub mod robots_bait;
pub mod wordpress_json;
pub mod wordpress_wlwmanifest;
pub mod wordpress_xmlrpc;
