use git_deploy::files::{
    get_file_text, get_info_packs, get_loose_object, get_pack_or_idx_file, info_packs_path,
    loose_object_path, pack_path,
};
use git_deploy::http::{Header, Response};

fn header(name: &str, value: &str) -> Header {
    Header { name: name.to_string(), value: value.to_string() }
}

fn no_cache() -> Vec<Header> {
    vec![
        header("Expires", "Fri, 01 Jan 1980 00:00:00 GMT"),
        header("Pragma", "no-cache"),
        header("Cache-Control", "no-cache, max-age=0, must-revalidate"),
    ]
}

fn cached(now: u64) -> Vec<Header> {
    vec![
        header("Date", &now.to_string()),
        header("Expires", &(now as u128 + 31536000).to_string()),
        header("Cache-Control", "public, max-age=31536000"),
    ]
}

fn not_found() -> Response {
    Response { status: 404, headers: vec![], body: vec![] }
}

#[test]
fn response_builders() {
    let r = Response::ok();
    assert_eq!(r, Response { status: 200, headers: vec![], body: vec![] });
    let r = Response::new(404).header("A", "1").header("B", "2").with_body(b"x".to_vec());
    assert_eq!(r.status, 404);
    assert_eq!(r.headers, vec![header("A", "1"), header("B", "2")]);
    assert_eq!(r.body, b"x".to_vec());
    assert_eq!(r.header_value("B"), Some("2"));
    assert_eq!(r.header_value("C"), None);
    let twice = Response::ok().header("A", "1").header("A", "2");
    assert_eq!(twice.header_value("A"), Some("1"));
}

#[test]
fn no_cache_sets_three_headers() {
    let r = Response::ok().header("X", "y").no_cache();
    let mut expected = vec![header("X", "y")];
    expected.extend(no_cache());
    assert_eq!(r.headers, expected);
}

#[test]
fn cache_forever_stamps_date_and_expiry() {
    let r = Response::ok().cache_forever(1700000000000);
    assert_eq!(r.headers, cached(1700000000000));
    assert_eq!(r.header_value("Expires"), Some("1700031536000"));
    let r = Response::ok().cache_forever(u64::MAX);
    assert_eq!(r.header_value("Date"), Some("18446744073709551615"));
    assert_eq!(r.header_value("Expires"), Some("18446744073741087615"));
    let r = Response::ok().cache_forever(0);
    assert_eq!(r.header_value("Date"), Some("0"));
    assert_eq!(r.header_value("Expires"), Some("31536000"));
}

#[test]
fn paths_of_served_files() {
    assert_eq!(info_packs_path("/b", "o", "r"), "/b/o/r.git/objects/info/packs");
    assert_eq!(
        loose_object_path("/b", "o", "r.git", "ab", "cdef"),
        "/b/o/r.git/objects/ab/cdef"
    );
    assert_eq!(pack_path("/b", "o", "r", "pack-1.idx"), "/b/o/r.git/objects/pack/pack-1.idx");
}

#[test]
fn missing_files_give_404_with_nothing_in_it() {
    assert_eq!(get_file_text(None), not_found());
    assert_eq!(get_info_packs(None), not_found());
    assert_eq!(get_loose_object(None, 5), not_found());
    assert_eq!(get_pack_or_idx_file("pack-1.pack", None, 5), not_found());
}

#[test]
fn text_files_are_plain_text() {
    let r = get_file_text(Some(b"ref: refs/heads/main\n".to_vec()));
    assert_eq!(
        r,
        Response {
            status: 200,
            headers: vec![header("Content-Type", "text/plain")],
            body: b"ref: refs/heads/main\n".to_vec(),
        }
    );
}

#[test]
fn info_packs_is_never_cached() {
    let r = get_info_packs(Some(b"P pack-1.pack\n".to_vec()));
    let mut headers = no_cache();
    headers.push(header("Content-Type", "text/plain; charset=utf-8"));
    assert_eq!(r, Response { status: 200, headers, body: b"P pack-1.pack\n".to_vec() });
}

#[test]
fn loose_objects_are_cached_forever() {
    let r = get_loose_object(Some(vec![1, 2, 3]), 1000);
    let mut headers = cached(1000);
    headers.push(header("Content-Type", "application/x-git-loose-object"));
    assert_eq!(r, Response { status: 200, headers, body: vec![1, 2, 3] });
}

#[test]
fn packs_and_indexes_by_extension() {
    let r = get_pack_or_idx_file("pack-1.pack", Some(vec![9]), 1000);
    let mut headers = cached(1000);
    headers.push(header("Content-Type", "application/x-git-packed-objects"));
    assert_eq!(r, Response { status: 200, headers, body: vec![9] });
    let r = get_pack_or_idx_file("pack-1.idx", Some(vec![8]), 1000);
    let mut headers = cached(1000);
    headers.push(header("Content-Type", "application/x-git-packed-objects-toc"));
    assert_eq!(r, Response { status: 200, headers, body: vec![8] });
    assert_eq!(get_pack_or_idx_file("pack-1.txt", Some(vec![8]), 1000), not_found());
    assert_eq!(get_pack_or_idx_file("pack", Some(vec![8]), 1000), not_found());
}
