use agent_server::vnc::{content_type, viewer_page, vnc_page, VncPage};

fn file(path: &str) -> (String, &'static str) {
    match vnc_page(path, None) {
        VncPage::File { path, content_type } => (path, content_type),
        other => panic!("{:?}", other),
    }
}

#[test]
fn viewer_landing_depends_on_token() {
    assert!(matches!(vnc_page("/vnc/", None), VncPage::Login));
    assert!(matches!(vnc_page("/vnc/", Some("autoconnect=true")), VncPage::Login));
    assert!(matches!(vnc_page("/vnc/", Some("token=abc")), VncPage::Viewer));
    assert!(matches!(vnc_page("/vnc/", Some("a=1&token=")), VncPage::Viewer));
}

#[test]
fn viewer_files_stay_in_their_directory() {
    assert!(matches!(vnc_page("/vnc/../etc/passwd", None), VncPage::Forbidden));
    assert!(matches!(vnc_page("/vnc/app/..", None), VncPage::Forbidden));
    assert_eq!(file("/vnc/app/ui.js"), ("/opt/novnc/app/ui.js".to_string(), "application/javascript"));
    assert_eq!(file("/vnc/vnc.html"), ("/opt/novnc/vnc.html".to_string(), "text/html"));
    assert_eq!(file("/vnc/app/styles/base.css").1, "text/css");
    assert_eq!(file("/vnc/app/images/icons/novnc.svg").1, "image/svg+xml");
    assert_eq!(file("/vnc/fonts/x.woff2").1, "font/woff2");
    assert_eq!(file("/vnc/fonts/x.woff").1, "font/woff");
    assert_eq!(file("/vnc/favicon.ico").1, "image/x-icon");
    assert_eq!(file("/vnc/logo.png").1, "image/png");
    assert_eq!(file("/vnc/LICENSE").1, "application/octet-stream");
    assert_eq!(content_type("/opt/novnc/a.js/readme"), "application/octet-stream");
}

#[test]
fn viewer_page_carries_the_escaped_token() {
    let page = viewer_page("<html><head><title>x</title></head><body></body></html>", "token=a\"b\\c&autoconnect=1");
    assert!(page.starts_with("<html><head><title>x</title><script>"));
    assert!(page.contains("var token = \"a\\\"b\\\\c\";"));
    assert!(page.contains("var autoconnect = true;"));
    assert!(page.ends_with("</script></head><body></body></html>"));
    assert_eq!(page.matches("</head>").count(), 1);

    let page = viewer_page("<head></head><head></head>", "token=t");
    assert!(page.contains("var autoconnect = false;"));
    assert!(page.ends_with("</script></head><head></head>"));

    assert_eq!(viewer_page("<body></body>", "token=t"), "<body></body>");
}
