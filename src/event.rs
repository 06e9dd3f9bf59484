//! The event webhook and the forwarding of human messages to the backend.
//! The webhook answers at once; the forwarding runs apart from the answer as
//! a sequence of steps whose outbound calls the caller performs.

use crate::cipher::{CipherError, TokenCipher};
use vstd::prelude::*;
use vstd::string::StringExecFns;

verus! {

/// A file attached to a platform message.
pub struct FileRef {
    pub name: String,
    pub mimetype: String,
    pub url_private: String,
}

/// A message event as the platform sends it.
pub struct Event {
    pub bot_id: Option<String>,
    pub user: Option<String>,
    pub text: Option<String>,
    pub files: Option<Vec<FileRef>>,
}

/// The body of a webhook call.
pub struct EventBody {
    pub challenge: Option<String>,
    pub event: Option<Event>,
}

/// A human message that is to reach the backend.
pub struct Forward {
    pub user: String,
    pub text: String,
    pub files: Vec<FileRef>,
}

/// The webhook's answer: status 200 with this body, and the forwarding that
/// is to run apart from it, if any.
pub struct EventReply {
    pub body: String,
    pub forward: Option<Forward>,
}

pub open spec fn text_or_empty(o: Option<String>) -> Seq<char> {
    match o {
        Some(s) => s@,
        None => Seq::empty(),
    }
}

pub open spec fn files_or_none(o: Option<Vec<FileRef>>) -> Seq<FileRef> {
    match o {
        Some(v) => v@,
        None => Seq::empty(),
    }
}

/// A challenge is echoed and nothing else is done. Otherwise an event that
/// no bot wrote is forwarded once, with absent fields taken as empty, and
/// the body is empty.
pub fn capture_event(body: EventBody) -> (r: EventReply)
    ensures
        match body.challenge {
            Some(c) => r.body@ == c@ && r.forward is None,
            None => r.body@ == Seq::<char>::empty() && match body.event {
                Some(e) => if e.bot_id is None {
                    r.forward is Some
                        && r.forward->0.user@ == text_or_empty(e.user)
                        && r.forward->0.text@ == text_or_empty(e.text)
                        && r.forward->0.files@ == files_or_none(e.files)
                } else {
                    r.forward is None
                },
                None => r.forward is None,
            },
        },
{
    if let Some(challenge) = body.challenge {
        return EventReply { body: challenge, forward: None };
    }
    let mut forward: Option<Forward> = None;
    if let Some(evt) = body.event {
        if evt.bot_id.is_none() {
            let user = match evt.user {
                Some(u) => u,
                None => String::new(),
            };
            let text = match evt.text {
                Some(t) => t,
                None => String::new(),
            };
            let files = match evt.files {
                Some(f) => f,
                None => Vec::new(),
            };
            forward = Some(Forward { user, text, files });
        }
    }
    EventReply { body: String::new(), forward }
}

/// The backend's endpoints.
#[derive(Debug, Clone, Copy, PartialEq, Eq, Structural)]
pub enum Route {
    /// Takes a plain text message.
    Post,
    /// Takes a message with files, as a multipart form.
    Upload,
    /// Gives the stored state of an author.
    AuthorState,
}

pub open spec fn route_path(route: Route) -> Seq<char> {
    match route {
        Route::Post => "/api/_funcs/_post"@,
        Route::Upload => "/api/_funcs/_upload"@,
        Route::AuthorState => "/api/_funcs/_author_state"@,
    }
}

/// The address of a backend endpoint under the configured prefix.
pub fn reactor_url(prefix: &str, route: Route) -> (r: String)
    ensures
        r@ == prefix@ + route_path(route),
{
    proof {
        reveal_strlit("/api/_funcs/_post");
        reveal_strlit("/api/_funcs/_upload");
        reveal_strlit("/api/_funcs/_author_state");
    }
    let mut s = prefix.to_owned();
    match route {
        Route::Post => s.append("/api/_funcs/_post"),
        Route::Upload => s.append("/api/_funcs/_upload"),
        Route::AuthorState => s.append("/api/_funcs/_author_state"),
    }
    s
}

/// The first step of a forwarding.
pub enum ForwardStep {
    /// Send `{user, text}` as JSON to `url`; that is all.
    PostText { url: String, user: String, text: String },
    /// Ask `url` for the stored state of `author`, then fetch the files with
    /// the token it holds.
    LookupAuthor { url: String, author: String, pending: Forward },
}

/// Without files the message goes to the backend's post endpoint; with files
/// the author's state is looked up first.
pub fn forward_begin(prefix: &str, fwd: Forward) -> (r: ForwardStep)
    ensures
        fwd.files@.len() == 0 ==> (r matches ForwardStep::PostText { url, user, text }
            && url@ == prefix@ + route_path(Route::Post) && user@ == fwd.user@ && text@
            == fwd.text@),
        fwd.files@.len() != 0 ==> (r matches ForwardStep::LookupAuthor { url, author, pending }
            && url@ == prefix@ + route_path(Route::AuthorState) && author@ == fwd.user@
            && pending == fwd),
{
    if fwd.files.len() == 0 {
        ForwardStep::PostText { url: reactor_url(prefix, Route::Post), user: fwd.user, text: fwd.text }
    } else {
        let author = fwd.user.clone();
        ForwardStep::LookupAuthor { url: reactor_url(prefix, Route::AuthorState), author, pending: fwd }
    }
}

/// The token for the file fetches, from what decrypting the author's state
/// gave: none where it failed.
pub fn author_token_from(decrypted: Result<String, CipherError>) -> (r: Option<String>)
    ensures
        match decrypted {
            Ok(t) => r is Some && r->0@ == t@,
            Err(_) => r is None,
        },
{
    match decrypted {
        Ok(t) => Some(t),
        Err(_) => None,
    }
}

/// The token held by the state that the backend returned for an author.
/// `None` in: the lookup failed or did not succeed. A missing or invalid
/// state means that no token is available, and the forwarding ends.
pub fn author_token(cipher: &TokenCipher, answer: Option<String>) -> (r: Option<String>)
    ensures
        answer is None ==> r is None,
        answer is Some && cipher.refuses_state(answer->0@) ==> r is None,
        r is Some ==> answer is Some && cipher.decrypted_from(answer->0@, r->0@),
{
    match answer {
        None => None,
        Some(state) => author_token_from(cipher.decrypt(state.as_str())),
    }
}

/// A file fetched from the platform, ready to go to the backend.
pub struct FetchedFile {
    pub name: String,
    pub mimetype: String,
    pub data: Vec<u8>,
}

pub open spec fn file_view(f: FetchedFile) -> (Seq<char>, Seq<char>, Seq<u8>) {
    (f.name@, f.mimetype@, f.data@)
}

/// The first `n` files, in order, each kept with its body where its fetch
/// gave one and left out where it failed.
pub open spec fn fetched_prefix(files: Seq<FileRef>, bodies: Seq<Option<Vec<u8>>>, n: nat) -> Seq<
    (Seq<char>, Seq<char>, Seq<u8>),
>
    decreases n,
{
    if n == 0 {
        Seq::empty()
    } else {
        let before = fetched_prefix(files, bodies, (n - 1) as nat);
        match bodies[n - 1] {
            Some(d) => before.push((files[n - 1].name@, files[n - 1].mimetype@, d@)),
            None => before,
        }
    }
}

/// The upload that ends a forwarding with files.
pub struct ReactorUpload {
    pub url: String,
    pub user: String,
    pub text: String,
    pub files: Vec<FetchedFile>,
}

/// The backend upload for a forwarding: `bodies` holds, for each file of
/// `pending` in turn, what its fetch gave. A file whose fetch failed is left
/// out and the others still go.
pub fn forward_upload(prefix: &str, pending: &Forward, bodies: &Vec<Option<Vec<u8>>>) -> (r:
    ReactorUpload)
    requires
        bodies@.len() == pending.files@.len(),
    ensures
        r.url@ == prefix@ + route_path(Route::Upload),
        r.user@ == pending.user@,
        r.text@ == pending.text@,
        r.files@.map_values(|f: FetchedFile| file_view(f)) == fetched_prefix(
            pending.files@,
            bodies@,
            pending.files@.len(),
        ),
{
    let mut files: Vec<FetchedFile> = Vec::new();
    let mut i: usize = 0;
    while i < pending.files.len()
        invariant
            i <= pending.files@.len(),
            bodies@.len() == pending.files@.len(),
            files@.map_values(|f: FetchedFile| file_view(f)) == fetched_prefix(
                pending.files@,
                bodies@,
                i as nat,
            ),
        decreases pending.files@.len() - i,
    {
        let f = &pending.files[i];
        match &bodies[i] {
            Some(d) => {
                let item = FetchedFile { name: f.name.clone(), mimetype: f.mimetype.clone(), data: d.clone() };
                let ghost before = files@;
                files.push(item);
                assert(files@.map_values(|f: FetchedFile| file_view(f)) =~= before.map_values(
                    |f: FetchedFile| file_view(f),
                ).push(file_view(item)));
            },
            None => {},
        }
        i = i + 1;
    }
    ReactorUpload {
        url: reactor_url(prefix, Route::Upload),
        user: pending.user.clone(),
        text: pending.text.clone(),
        files,
    }
}

} // verus!
