use badcqbot::collect::{file_info_url, group_of_message, lookup_url, scan, settle, MediaItem, Scan, Wanted};
use badcqbot::event::{Group, MessageEvent, Segment};
use badcqbot::session::Session;

fn image(id: &str, url: &str) -> Segment {
    Segment::Image { id: id.to_string(), url: url.to_string() }
}

fn flash(id: &str, url: &str) -> Segment {
    Segment::FlashImage { id: id.to_string(), url: url.to_string() }
}

fn file(id: &str) -> Segment {
    Segment::File { id: id.to_string() }
}

fn ready(id: &str, url: &str) -> Wanted {
    Wanted::Ready(MediaItem { id: id.to_string(), url: url.to_string() })
}

fn in_group(group: u64, segments: Vec<Segment>) -> MessageEvent {
    MessageEvent { sender: 7, group: Some(Group { id: group, name: None }), segments }
}

fn direct(segments: Vec<Segment>) -> MessageEvent {
    MessageEvent { sender: 7, group: None, segments }
}

#[test]
fn image_in_another_group_is_skipped_but_flash_image_is_not() {
    let allow = 100;
    let with_image = in_group(200, vec![image("a", "ua")]);
    assert_eq!(scan(&with_image, allow).wanted, vec![]);
    let with_flash = in_group(200, vec![flash("a", "ua")]);
    assert_eq!(scan(&with_flash, allow).wanted, vec![ready("a", "ua")]);
}

#[test]
fn image_counts_in_the_allowed_group_and_in_direct_messages() {
    let allow = 100;
    assert_eq!(scan(&in_group(100, vec![image("a", "ua")]), allow).wanted, vec![ready("a", "ua")]);
    assert_eq!(scan(&direct(vec![image("a", "ua")]), allow).wanted, vec![ready("a", "ua")]);
}

#[test]
fn file_in_a_direct_message_is_never_looked_up() {
    let s = scan(&direct(vec![file("/f"), image("a", "ua"), file("/g")]), 100);
    assert_eq!(s.wanted, vec![ready("a", "ua")]);
}

#[test]
fn file_counts_only_in_the_allowed_group() {
    let allow = 100;
    assert_eq!(
        scan(&in_group(100, vec![file("/f")]), allow).wanted,
        vec![Wanted::Lookup { group: 100, file: "/f".to_string() }]
    );
    assert_eq!(scan(&in_group(101, vec![file("/f")]), allow).wanted, vec![]);
}

#[test]
fn scan_keeps_the_order_and_the_last_source() {
    let message = in_group(
        100,
        vec![
            Segment::Source { message: 1, time: 10 },
            flash("b", "ub"),
            Segment::Other,
            file("/f"),
            Segment::Source { message: 2, time: 20 },
            image("a", "ua"),
        ],
    );
    let expected = Scan {
        source: Some((2, 20)),
        wanted: vec![
            ready("b", "ub"),
            Wanted::Lookup { group: 100, file: "/f".to_string() },
            ready("a", "ua"),
        ],
    };
    assert_eq!(scan(&message, 100), expected);
}

#[test]
fn message_without_source_has_none() {
    assert_eq!(scan(&direct(vec![Segment::Other]), 1), Scan { source: None, wanted: vec![] });
    assert_eq!(scan(&direct(vec![]), 1), Scan { source: None, wanted: vec![] });
}

#[test]
fn group_of_message_reads_the_group_id() {
    assert_eq!(group_of_message(&in_group(5, vec![])), Some(5));
    assert_eq!(group_of_message(&direct(vec![])), None);
}

#[test]
fn settle_takes_answers_by_position() {
    let wanted = vec![
        ready("a", "ua"),
        Wanted::Lookup { group: 1, file: "/f".to_string() },
        Wanted::Lookup { group: 1, file: "/g".to_string() },
        ready("b", "ub"),
        Wanted::Lookup { group: 1, file: "/h".to_string() },
    ];
    let answers = vec![
        Some("ignored".to_string()),
        Some("uf".to_string()),
        None,
        None,
    ];
    let items = settle(&wanted, &answers);
    assert_eq!(
        items,
        vec![
            MediaItem { id: "a".to_string(), url: "ua".to_string() },
            MediaItem { id: "/f".to_string(), url: "uf".to_string() },
            MediaItem { id: "b".to_string(), url: "ub".to_string() },
        ]
    );
    assert_eq!(settle(&vec![], &answers), vec![]);
}

#[test]
fn file_lookup_address_is_exact() {
    assert_eq!(
        file_info_url("localhost:8080", "KEY", 123456, "/dir/f.txt"),
        "http://localhost:8080/file/info?sessionKey=KEY&group=123456&id=/dir/f.txt&withDownloadInfo=true"
    );
}

#[test]
fn lookup_needs_a_file_and_a_token() {
    let lookup = Wanted::Lookup { group: 9, file: "/f".to_string() };
    let mut session = Session::new();
    assert_eq!(lookup_url("h", &session, &lookup), None);
    assert_eq!(session.set("T".to_string()), Ok(()));
    assert_eq!(
        lookup_url("h", &session, &lookup),
        Some("http://h/file/info?sessionKey=T&group=9&id=/f&withDownloadInfo=true".to_string())
    );
    assert_eq!(lookup_url("h", &session, &ready("a", "ua")), None);
}
