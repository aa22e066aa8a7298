//! The static assets of the game page: which file a request names and how it
//! is answered.

use vstd::prelude::*;
use vstd::string::StrSliceExecFns;

verus! {

/// A request path without its leading slashes.
pub open spec fn trim_leading_slashes(path: Seq<char>) -> Seq<char>
    decreases path.len(),
{
    if path.len() > 0 && path[0] == '/' {
        trim_leading_slashes(path.drop_first())
    } else {
        path
    }
}

/// Removing `k` leading slashes, followed by something else or nothing, is
/// trimming.
proof fn lemma_trim_after_slashes(path: Seq<char>, k: int)
    requires
        0 <= k <= path.len(),
        forall|i: int| 0 <= i < k ==> path[i] == '/',
        k == path.len() || path[k] != '/',
    ensures
        trim_leading_slashes(path) == path.subrange(k, path.len() as int),
    decreases k,
{
    if k == 0 {
        assert(path.subrange(0, path.len() as int) =~= path);
    } else {
        let rest = path.drop_first();
        assert forall|i: int| 0 <= i < k - 1 implies rest[i] == '/' by {
            assert(rest[i] == path[i + 1]);
        }
        if k - 1 < rest.len() {
            assert(rest[k - 1] == path[k]);
        }
        lemma_trim_after_slashes(rest, k - 1);
        assert(rest.subrange(k - 1, rest.len() as int) =~= path.subrange(k, path.len() as int));
    }
}

/// The embedded file that a request path names: the path without its leading
/// slashes.
pub fn asset_path(uri_path: &str) -> (path: String)
    ensures
        path@ == trim_leading_slashes(uri_path@),
{
    let n = uri_path.unicode_len();
    let mut k: usize = 0;
    while k < n && uri_path.get_char(k) == '/'
        invariant
            k <= n,
            n == uri_path@.len(),
            forall|i: int| 0 <= i < k ==> uri_path@[i] == '/',
        decreases n - k,
    {
        k = k + 1;
    }
    proof {
        lemma_trim_after_slashes(uri_path@, k as int);
    }
    uri_path.substring_char(k, n).to_owned()
}

/// The media type guessed from a file name's extension.
pub uninterp spec fn guessed_content_type(path: Seq<char>) -> Seq<char>;

/// Guesses the media type of the file `path`.
///
/// Calls `mime_guess::MimeGuess::from_path` and `first_or_octet_stream`, which
/// look the extension up in mime_guess's table and fall back to
/// `application/octet-stream`.
#[verifier::external_body]
fn content_type_of(path: &str) -> (content_type: String)
    ensures
        content_type@ == guessed_content_type(path@),
{
    let mime = mime_guess::MimeGuess::from_path(path).first_or_octet_stream();
    let essence: &str = mime.as_ref();
    essence.to_string()
}

/// How an asset request is answered.
pub struct AssetReply {
    pub status: u16,
    /// The `Content-Type` header, sent with the file's bytes.
    pub content_type: Option<String>,
}

/// Answers a request for the embedded file `path`, which was `found` or not:
/// the file with its guessed media type, or 404.
pub fn asset_reply(path: &str, found: bool) -> (reply: AssetReply)
    ensures
        found ==> reply.status == 200 && (reply.content_type matches Some(t) && t@ == guessed_content_type(path@)),
        !found ==> reply.status == 404 && reply.content_type is None,
{
    if found {
        AssetReply { status: 200, content_type: Some(content_type_of(path)) }
    } else {
        AssetReply { status: 404, content_type: None }
    }
}


/// A trimmed path does not start with a slash, and trimming it again changes
/// nothing.
pub proof fn lemma_trim_is_idempotent(path: Seq<char>)
    ensures
        trim_leading_slashes(path).len() > 0 ==> trim_leading_slashes(path)[0] != '/',
        trim_leading_slashes(trim_leading_slashes(path)) == trim_leading_slashes(path),
    decreases path.len(),
{
    if path.len() > 0 && path[0] == '/' {
        lemma_trim_is_idempotent(path.drop_first());
    }
}


/// Trimming removes the leading slashes and nothing else: the path is some
/// number of slashes followed by the trimmed path.
pub proof fn lemma_trim_removes_leading_slashes(path: Seq<char>)
    ensures
        trim_leading_slashes(path).len() <= path.len(),
        ({
            let k = path.len() - trim_leading_slashes(path).len();
            &&& path.subrange(k, path.len() as int) == trim_leading_slashes(path)
            &&& forall|i: int| 0 <= i < k ==> path[i] == '/'
        }),
    decreases path.len(),
{
    if path.len() > 0 && path[0] == '/' {
        let rest = path.drop_first();
        lemma_trim_removes_leading_slashes(rest);
        let k = path.len() - trim_leading_slashes(path).len();
        assert(path.subrange(k, path.len() as int) =~= rest.subrange(k - 1, rest.len() as int));
        assert forall|i: int| 0 <= i < k implies path[i] == '/' by {
            if i > 0 {
                assert(path[i] == rest[i - 1]);
            }
        }
    } else {
        assert(path.subrange(0, path.len() as int) =~= path);
    }
}

} // verus!
