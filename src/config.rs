use vstd::prelude::*;

verus! {

/// Where and what the server serves. Built once at startup, never changed.
#[derive(Debug)]
pub struct Config {
    pub host: String,
    pub port: i32,
    pub pages_dir: String,
    pub static_dir: String,
    /// Whether these are the built-in defaults rather than a loaded file.
    pub default: bool,
}

impl Default for Config {
    /// Localhost, port 3000, `./pages` and `./static`.
    fn default() -> (r: Config)
        ensures
            r.host@ == "127.0.0.1"@,
            r.port == 3000,
            r.pages_dir@ == "./pages"@,
            r.static_dir@ == "./static"@,
            r.default,
    {
        Config {
            host: String::from_str("127.0.0.1"),
            port: 3000,
            pages_dir: String::from_str("./pages"),
            static_dir: String::from_str("./static"),
            default: true,
        }
    }
}

} // verus!
