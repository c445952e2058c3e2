//! Read-only serving of the files of a bare repository: `HEAD`, the files
//! under `objects/info`, loose objects, packs and their indexes.
//!
//! Each endpoint has a function that names the file to read and a function
//! that turns what was read into the response. A file that could not be read
//! is handed over as `None`.
use vstd::prelude::*;
use vstd::string::StringExecFns;
use crate::http::{cache_forever_headers, no_cache_headers, Response, ResponseView};
use crate::repo::{file_path, path_within};
use crate::text::ends_with;

verus! {

/// The response for a file that is not there: 404 with nothing in it.
pub open spec fn not_found() -> ResponseView {
    ResponseView { status: 404, headers: Seq::empty(), body: Seq::empty() }
}

/// A response with status 200.
pub open spec fn found(headers: Seq<(Seq<char>, Seq<char>)>, body: Seq<u8>) -> ResponseView {
    ResponseView { status: 200, headers, body }
}

/// The content type of a pack file or of a pack index, by the file's name.
pub open spec fn pack_content_type(file: Seq<char>) -> Option<Seq<char>> {
    if ".pack"@.is_suffix_of(file) {
        Some("application/x-git-packed-objects"@)
    } else if ".idx"@.is_suffix_of(file) {
        Some("application/x-git-packed-objects-toc"@)
    } else {
        None
    }
}

/// The file `objects/info/packs` of a repository.
pub fn info_packs_path(base: &str, owner: &str, repo: &str) -> (path: String)
    ensures
        path@ == path_within(base@, owner@, repo@, "objects/info/packs"@),
{
    file_path(base, owner, repo, "objects/info/packs")
}

/// The file of the loose object whose name starts with `head` and goes on
/// with `hash`.
pub fn loose_object_path(base: &str, owner: &str, repo: &str, head: &str, hash: &str) -> (path:
    String)
    ensures
        path@ == path_within(base@, owner@, repo@, "objects/"@ + head@ + "/"@ + hash@),
{
    let mut file = String::from_str("objects/");
    file.append(head);
    file.append("/");
    file.append(hash);
    file_path(base, owner, repo, file.as_str())
}

/// The file `objects/pack/<file>` of a repository.
pub fn pack_path(base: &str, owner: &str, repo: &str, file: &str) -> (path: String)
    ensures
        path@ == path_within(base@, owner@, repo@, "objects/pack/"@ + file@),
{
    let mut inner = String::from_str("objects/pack/");
    inner.append(file);
    file_path(base, owner, repo, inner.as_str())
}

/// Serves a text file of the repository, such as `HEAD`.
pub fn get_file_text(contents: Option<Vec<u8>>) -> (r: Response)
    ensures
        r@ == match contents {
            None => not_found(),
            Some(body) => found(seq![("Content-Type"@, "text/plain"@)], body@),
        },
{
    match contents {
        None => Response::new(404),
        Some(body) => {
            let r = Response::ok().header("Content-Type", "text/plain").with_body(body);
            assert(r@.headers =~= seq![("Content-Type"@, "text/plain"@)]);
            r
        },
    }
}

/// Serves `objects/info/packs`, never to be cached.
pub fn get_info_packs(contents: Option<Vec<u8>>) -> (r: Response)
    ensures
        r@ == match contents {
            None => not_found(),
            Some(body) => found(
                no_cache_headers().push(("Content-Type"@, "text/plain; charset=utf-8"@)),
                body@,
            ),
        },
{
    match contents {
        None => Response::new(404),
        Some(body) => {
            let r = Response::ok().no_cache().header(
                "Content-Type",
                "text/plain; charset=utf-8",
            ).with_body(body);
            assert(r@.headers =~= no_cache_headers().push(
                ("Content-Type"@, "text/plain; charset=utf-8"@),
            ));
            r
        },
    }
}

/// Serves a loose object, to be cached for a year from `now`, the time in
/// seconds since the epoch.
pub fn get_loose_object(contents: Option<Vec<u8>>, now: u64) -> (r: Response)
    ensures
        r@ == match contents {
            None => not_found(),
            Some(body) => found(
                cache_forever_headers(now).push(
                    ("Content-Type"@, "application/x-git-loose-object"@),
                ),
                body@,
            ),
        },
{
    match contents {
        None => Response::new(404),
        Some(body) => {
            let r = Response::ok().cache_forever(now).header(
                "Content-Type",
                "application/x-git-loose-object",
            ).with_body(body);
            assert(r@.headers =~= cache_forever_headers(now).push(
                ("Content-Type"@, "application/x-git-loose-object"@),
            ));
            r
        },
    }
}

/// Serves a pack or a pack index, to be cached for a year from `now`, the
/// time in seconds since the epoch. A file
/// whose name ends neither in `.pack` nor in `.idx` is not served.
pub fn get_pack_or_idx_file(file: &str, contents: Option<Vec<u8>>, now: u64) -> (r: Response)
    ensures
        r@ == match (contents, pack_content_type(file@)) {
            (Some(body), Some(content_type)) => found(
                cache_forever_headers(now).push(("Content-Type"@, content_type)),
                body@,
            ),
            _ => not_found(),
        },
{
    match contents {
        None => Response::new(404),
        Some(body) => {
            let content_type = if ends_with(file, ".pack") {
                "application/x-git-packed-objects"
            } else if ends_with(file, ".idx") {
                "application/x-git-packed-objects-toc"
            } else {
                return Response::new(404);
            };
            let r = Response::ok().cache_forever(now).header(
                "Content-Type",
                content_type,
            ).with_body(body);
            assert(r@.headers =~= cache_forever_headers(now).push(
                ("Content-Type"@, content_type@),
            ));
            r
        },
    }
}

} // verus!
