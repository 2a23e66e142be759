use lime::classify::classify;
use lime::serve::{
    handle_index, handle_wildcard, step, Action, AppState, Event, Outcome, Stage,
    DEFAULT_INDEX_PAGE, INTERNAL_ERROR_PAGE, NOT_FOUND_PAGE,
};

/// An in-memory filesystem: regular files, directories and symbolic links,
/// all under absolute paths.
struct FakeFs {
    files: Vec<(String, Vec<u8>)>,
    dirs: Vec<String>,
    links: Vec<(String, String)>,
    unreadable: Vec<String>,
}

impl FakeFs {
    fn new() -> FakeFs {
        FakeFs {
            files: Vec::new(),
            dirs: vec!["/".to_string(), "/srv".to_string(), "/srv/pages".to_string(), "/srv/static".to_string(), "/etc".to_string()],
            links: Vec::new(),
            unreadable: Vec::new(),
        }
    }

    fn file(mut self, path: &str, content: &[u8]) -> FakeFs {
        self.files.push((path.to_string(), content.to_vec()));
        self
    }

    fn dir(mut self, path: &str) -> FakeFs {
        self.dirs.push(path.to_string());
        self
    }

    fn link(mut self, path: &str, to: &str) -> FakeFs {
        self.links.push((path.to_string(), to.to_string()));
        self
    }

    fn unreadable(mut self, path: &str) -> FakeFs {
        self.unreadable.push(path.to_string());
        self
    }

    fn has(&self, p: &str) -> bool {
        self.files.iter().any(|(f, _)| f == p) || self.dirs.iter().any(|d| d == p)
    }

    /// Resolves `.`, `..` and links lexically, as `realpath` does.
    fn canonicalize(&self, p: &str) -> Option<String> {
        let mut parts: Vec<String> = Vec::new();
        for seg in p.split('/') {
            match seg {
                "" | "." => {}
                ".." => {
                    parts.pop();
                }
                s => {
                    parts.push(s.to_string());
                    let here = format!("/{}", parts.join("/"));
                    if let Some((_, to)) = self.links.iter().find(|(l, _)| *l == here) {
                        parts = to.split('/').filter(|s| !s.is_empty()).map(|s| s.to_string()).collect();
                    }
                }
            }
        }
        let full = format!("/{}", parts.join("/"));
        if self.has(&full) {
            Some(full)
        } else {
            None
        }
    }

    fn read(&self, p: &str) -> Option<Vec<u8>> {
        if self.unreadable.iter().any(|u| u == p) {
            return None;
        }
        let canonical = self.canonicalize(p)?;
        self.files.iter().find(|(f, _)| *f == canonical).map(|(_, c)| c.clone())
    }

    fn answer(&self, action: &Action) -> Event {
        match action {
            Action::Probe(p) => Event::Exists(self.has(p)),
            Action::Canonicalize(p) => Event::Canonical(self.canonicalize(p)),
            Action::Inspect(p) => {
                if self.has(p) {
                    Event::IsDir(Some(self.dirs.iter().any(|d| d == p)))
                } else {
                    Event::IsDir(None)
                }
            }
            Action::ReadText(p) | Action::ReadPage(p) => {
                Event::Content(self.read(p).filter(|b| std::str::from_utf8(b).is_ok()))
            }
            Action::ReadBytes(p) => Event::Content(self.read(p)),
            Action::Respond(_) => panic!("a response needs no answer"),
        }
    }
}

fn state() -> AppState {
    AppState::new("/srv/pages", "/srv/static")
}

fn run(fs: &FakeFs, start: (Stage, Action)) -> (u16, String, Vec<u8>) {
    let (mut stage, mut action) = start;
    for _ in 0..16 {
        if let Action::Respond(outcome) = action {
            return outcome.into_parts();
        }
        let event = fs.answer(&action);
        let next = step(stage, event);
        stage = next.0;
        action = next.1;
    }
    panic!("the request did not end");
}

fn get(fs: &FakeFs, path: &str) -> (u16, String, Vec<u8>) {
    if path == "/" {
        run(fs, handle_index(&state()))
    } else {
        run(fs, handle_wildcard(path, &state()))
    }
}

const HTML: &str = "text/html; charset=utf-8";

#[test]
fn index_absent_serves_default_landing_page() {
    let fs = FakeFs::new();
    let (status, ct, body) = get(&fs, "/");
    assert_eq!(status, 200);
    assert_eq!(ct, HTML);
    assert_eq!(body, DEFAULT_INDEX_PAGE.as_bytes());
}

#[test]
fn index_present_is_served_from_disk() {
    let fs = FakeFs::new().file("/srv/pages/index.html", b"<h1>home</h1>");
    let (status, ct, body) = get(&fs, "/");
    assert_eq!(status, 200);
    assert_eq!(ct, HTML);
    assert_eq!(body, b"<h1>home</h1>");
}

#[test]
fn missing_page_is_404_with_builtin_page() {
    let fs = FakeFs::new();
    let (status, ct, body) = get(&fs, "/missing-page");
    assert_eq!(status, 404);
    assert_eq!(ct, HTML);
    assert_eq!(body, NOT_FOUND_PAGE.as_bytes());
}

#[test]
fn missing_page_uses_not_found_override() {
    let fs = FakeFs::new().file("/srv/pages/not-found.html", b"custom 404");
    let (status, _, body) = get(&fs, "/missing-page");
    assert_eq!(status, 404);
    assert_eq!(body, b"custom 404");
}

#[test]
fn unreadable_override_falls_back_to_builtin() {
    let fs = FakeFs::new()
        .file("/srv/pages/not-found.html", b"custom 404")
        .unreadable("/srv/pages/not-found.html");
    let (status, _, body) = get(&fs, "/nothing");
    assert_eq!(status, 404);
    assert_eq!(body, NOT_FOUND_PAGE.as_bytes());
}

#[test]
fn stylesheet_is_served_as_text_css() {
    let css: &[u8] = b"body { color: #333; }\n\xff";
    let fs = FakeFs::new().file("/srv/static/style.css", css);
    let (status, ct, body) = get(&fs, "/style.css");
    assert_eq!(status, 200);
    assert_eq!(ct, "text/css");
    assert_eq!(body, css);
}

#[test]
fn traversal_outside_roots_is_404() {
    let fs = FakeFs::new()
        .file("/etc/passwd", b"root:x:0:0")
        .file("/etc/passwd.html", b"root:x:0:0")
        .file("/etc/secret.txt", b"secret");
    for path in ["/../../etc/passwd", "/../../etc/secret.txt", "/a/../../../etc/passwd.html", "//etc/passwd"] {
        let (status, ct, body) = get(&fs, path);
        assert_eq!(status, 404, "{path}");
        assert_eq!(ct, HTML);
        assert_eq!(body, NOT_FOUND_PAGE.as_bytes(), "{path}");
    }
}

#[test]
fn symlink_out_of_root_is_404() {
    let fs = FakeFs::new()
        .file("/etc/logo.png", b"\x89PNG")
        .link("/srv/static/logo.png", "/etc/logo.png");
    let (status, _, body) = get(&fs, "/logo.png");
    assert_eq!(status, 404);
    assert_eq!(body, NOT_FOUND_PAGE.as_bytes());
}

#[test]
fn sibling_directory_with_root_prefix_is_404() {
    let fs = FakeFs::new()
        .dir("/srv/static2")
        .file("/srv/static2/a.png", b"png")
        .link("/srv/static/a.png", "/srv/static2/a.png");
    let (status, _, _) = get(&fs, "/a.png");
    assert_eq!(status, 404);
}

#[test]
fn page_with_and_without_extension_match() {
    let fs = FakeFs::new().file("/srv/pages/about.html", b"<p>about</p>");
    let plain = get(&fs, "/about");
    let explicit = get(&fs, "/about.html");
    assert_eq!(plain.0, 200);
    assert_eq!(plain, explicit);
    assert_eq!(plain.2, b"<p>about</p>");
}

#[test]
fn directory_is_404() {
    let fs = FakeFs::new().dir("/srv/static/img.d").dir("/srv/pages/docs.html");
    assert_eq!(get(&fs, "/img.d").0, 404);
    assert_eq!(get(&fs, "/docs").0, 404);
}

#[test]
fn unreadable_file_is_500() {
    let fs = FakeFs::new().file("/srv/static/a.bin", b"x").unreadable("/srv/static/a.bin");
    let (status, ct, body) = get(&fs, "/a.bin");
    assert_eq!(status, 500);
    assert_eq!(ct, HTML);
    assert_eq!(body, INTERNAL_ERROR_PAGE.as_bytes());
}

#[test]
fn page_that_is_not_utf8_is_500_with_override() {
    let fs = FakeFs::new()
        .file("/srv/pages/bad.html", b"\xff\xfe")
        .file("/srv/pages/internal-error.html", b"custom 500");
    let (status, _, body) = get(&fs, "/bad");
    assert_eq!(status, 500);
    assert_eq!(body, b"custom 500");
}

#[test]
fn missing_root_is_500() {
    let mut fs = FakeFs::new();
    fs.dirs.retain(|d| d != "/srv/static");
    let (status, _, body) = get(&fs, "/x.png");
    assert_eq!(status, 500);
    assert_eq!(body, INTERNAL_ERROR_PAGE.as_bytes());
}

#[test]
fn unknown_extension_is_octet_stream() {
    let fs = FakeFs::new().file("/srv/static/blob.qqqzz", b"\x00\x01");
    let (status, ct, body) = get(&fs, "/blob.qqqzz");
    assert_eq!(status, 200);
    assert_eq!(ct, "application/octet-stream");
    assert_eq!(body, b"\x00\x01");
}

#[test]
fn answer_of_wrong_kind_is_500() {
    let (stage, _) = handle_wildcard("/a.png", &state());
    let (next, action) = step(stage, Event::Exists(true));
    assert!(matches!(next, Stage::Done));
    match action {
        Action::Respond(o) => {
            assert!(matches!(o, Outcome::InternalError { .. }));
            assert_eq!(o.into_parts().2, INTERNAL_ERROR_PAGE.as_bytes());
        }
        _ => panic!("expected a response"),
    }
}

#[test]
fn classify_is_stable_across_calls() {
    for ext in ["css", "png", "JPG", "woff2", "yaml", "qqqzz", ""] {
        assert_eq!(classify(ext), classify(ext));
    }
}
