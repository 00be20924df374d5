//! The asset protocol: requests on a private URL scheme are mapped to files
//! under a configured root. The mapping and the reply policy live here; the
//! host performs the actual file read and hands the outcome back.

use vstd::prelude::*;
use vstd::string::*;

use crate::msg::EditorError;

verus! {

/// What the asset protocol answers when the requested file is missing.
#[derive(Clone, Copy, Debug, PartialEq, Eq, Structural)]
pub enum NotFoundPolicy {
    /// The reference policy: a missing file is fatal and surfaces as
    /// `AssetNotFound`.
    Fatal,
    /// Answer an empty not-found reply instead and keep serving.
    Respond404,
}

/// The media type that the lookup infers from a path's extension. The table
/// is compiled into the lookup, so the result depends on the path alone.
pub uninterp spec fn mime_of(path: Seq<char>) -> Seq<char>;

/// Relies on `mime_guess::from_path` followed by `first_or_text_plain`: the
/// first media type its compiled-in table holds for the path's extension,
/// or `text/plain` when the path has none or an unknown one. The table is
/// keyed by the extension alone, so the result is a function of the path.
#[verifier::external_body]
fn guess_mime(path: &str) -> (r: String)
    ensures
        r@ == mime_of(path@),
{
    mime_guess::from_path(path).first_or_text_plain().to_string()
}

/// The file a request path names: `/` serves the main page `index.html`
/// under the root; any other path names the file of that name under the
/// root. Request paths begin with `/`, so gluing the root on is the same
/// as joining the root with the path's tail.
pub open spec fn resolved_path(root: Seq<char>, path: Seq<char>) -> Seq<char> {
    if path == "/"@ {
        root + "/index.html"@
    } else {
        root + path
    }
}

/// A resolved asset request: the file to read and the media type to label
/// it with.
pub struct AssetResolution {
    pub full_path: String,
    pub content_type: String,
}

/// Resolves one request on the asset protocol to the file under `root` and
/// the media type inferred from its extension.
pub fn resolve_asset(root: &str, path: &str) -> (r: AssetResolution)
    requires
        path@.len() > 0,
        path@[0] == '/',
    ensures
        r.full_path@ == resolved_path(root@, path@),
        r.content_type@ == mime_of(resolved_path(root@, path@)),
{
    let mut full = String::from_str(root);
    if path.unicode_len() == 1 {
        proof {
            reveal_strlit("/");
            assert(path@ =~= "/"@);
        }
        full.append("/index.html");
    } else {
        proof {
            reveal_strlit("/");
            assert(path@ != "/"@);
        }
        full.append(path);
    }
    let content_type = guess_mime(full.as_str());
    AssetResolution { full_path: full, content_type }
}

/// One reply of the asset protocol. Replies always carry the permissive
/// cross-origin header, shown here as the flag `allow_any_origin`.
pub struct AssetReply {
    pub status: u16,
    pub content_type: String,
    pub allow_any_origin: bool,
    pub body: Vec<u8>,
}

/// Builds the reply once the host has tried to read the resolved file:
/// content present gives a successful reply with the inferred media type;
/// content absent follows the configured policy — fatal by reference, or an
/// empty not-found reply — and never brings the host down.
pub fn asset_reply(resolution: AssetResolution, content: Option<Vec<u8>>, policy: NotFoundPolicy)
    -> (r: Result<AssetReply, EditorError>)
    ensures
        content matches Some(body) ==> (r matches Ok(rep) && {
            &&& rep.status == 200
            &&& rep.body == body
            &&& rep.content_type == resolution.content_type
            &&& rep.allow_any_origin
        }),
        content is None && policy is Fatal ==> r == Err::<AssetReply, EditorError>(
            EditorError::AssetNotFound,
        ),
        content is None && policy is Respond404 ==> (r matches Ok(rep) && {
            &&& rep.status == 404
            &&& rep.body@ == Seq::<u8>::empty()
            &&& rep.content_type == resolution.content_type
            &&& rep.allow_any_origin
        }),
{
    match content {
        Some(body) => Ok(
            AssetReply {
                status: 200,
                content_type: resolution.content_type,
                allow_any_origin: true,
                body,
            },
        ),
        None => match policy {
            NotFoundPolicy::Fatal => Err(EditorError::AssetNotFound),
            NotFoundPolicy::Respond404 => Ok(
                AssetReply {
                    status: 404,
                    content_type: resolution.content_type,
                    allow_any_origin: true,
                    body: Vec::new(),
                },
            ),
        },
    }
}

/// The URL the page is loaded from when the asset protocol serves it. Some
/// platforms expose a custom protocol `name` as `http://name.localhost`,
/// the others as `name://localhost`; the host says which form it needs.
pub open spec fn asset_url_spec(name: Seq<char>, windows_scheme: bool) -> Seq<char> {
    if windows_scheme {
        "http://"@ + name + ".localhost"@
    } else {
        name + "://localhost"@
    }
}

/// Builds the page URL for the asset protocol `name`.
pub fn asset_url(name: &str, windows_scheme: bool) -> (r: String)
    ensures
        r@ == asset_url_spec(name@, windows_scheme),
{
    if windows_scheme {
        let mut r = String::from_str("http://");
        r.append(name);
        r.append(".localhost");
        r
    } else {
        let mut r = String::from_str(name);
        r.append("://localhost");
        r
    }
}

} // verus!
