//! Messages and files that go from the backend to the platform, in the name
//! of a user whose state comes with the request.

use crate::cipher::{CipherError, TokenCipher};
use crate::reply::Failure;
use vstd::prelude::*;
use vstd::string::StringSliceAdditionalSpecFns;
use vstd::utf8::{encode_utf8, encode_utf8_decode_utf8};

verus! {

/// The largest upload body taken, in bytes.
pub const MAX_UPLOAD_BYTES: u64 = 10485760;

/// A message to send to the platform with the user's own token.
pub struct OutgoingMessage {
    pub token: String,
    pub channel: String,
    pub text: String,
}

/// The message of a `POST` from what decrypting its state gave.
pub fn message_from(user: String, text: String, decrypted: Result<String, CipherError>) -> (r:
    Result<OutgoingMessage, Failure>)
    ensures
        match decrypted {
            Ok(t) => r is Ok && r->Ok_0.token@ == t@ && r->Ok_0.channel@ == user@
                && r->Ok_0.text@ == text@,
            Err(_) => r == Err::<OutgoingMessage, Failure>(Failure::StateRejected),
        },
{
    match decrypted {
        Ok(token) => Ok(OutgoingMessage { token, channel: user, text }),
        Err(_) => Err(Failure::StateRejected),
    }
}

/// The message of a `POST`: the state must decrypt, or nothing is sent.
pub fn message_plan(cipher: &TokenCipher, user: String, text: String, state: &str) -> (r: Result<
    OutgoingMessage,
    Failure,
>)
    ensures
        cipher.refuses_state(state@) ==> r == Err::<OutgoingMessage, Failure>(
            Failure::StateRejected,
        ),
        r is Err ==> r == Err::<OutgoingMessage, Failure>(Failure::StateRejected),
        r is Ok ==> r->Ok_0.channel@ == user@ && r->Ok_0.text@ == text@ && cipher.decrypted_from(
            state@,
            r->Ok_0.token@,
        ),
{
    message_from(user, text, cipher.decrypt(state))
}

/// The status of a `POST` once the platform call was made or failed.
pub fn message_status(sent: bool) -> (r: Result<u16, Failure>)
    ensures
        sent ==> r == Ok::<u16, Failure>(200),
        !sent ==> r == Err::<u16, Failure>(Failure::PostFailed),
{
    if sent {
        Ok(200)
    } else {
        Err(Failure::PostFailed)
    }
}

/// What a part of an upload form is, by its field name.
#[derive(Debug, Clone, Copy, PartialEq, Eq, Structural)]
pub enum FieldRole {
    File,
    User,
    State,
    Text,
    Ignored,
}

pub open spec fn role_of(name: Seq<char>) -> FieldRole {
    if name == "file"@ {
        FieldRole::File
    } else if name == "user"@ {
        FieldRole::User
    } else if name == "state"@ {
        FieldRole::State
    } else if name == "text"@ {
        FieldRole::Text
    } else {
        FieldRole::Ignored
    }
}

/// Whether two texts hold the same characters, compared by their bytes.
pub fn same_text(a: &str, b: &str) -> (r: bool)
    ensures
        r == (a@ == b@),
{
    let x = a.as_bytes();
    let y = b.as_bytes();
    proof {
        encode_utf8_decode_utf8(a@);
        encode_utf8_decode_utf8(b@);
        assert(x@ == encode_utf8(a@) && y@ == encode_utf8(b@));
    }
    if x.len() != y.len() {
        return false;
    }
    let mut i: usize = 0;
    while i < x.len()
        invariant
            x@.len() == y@.len(),
            i <= x@.len(),
            forall|k: int| 0 <= k < i ==> x@[k] == y@[k],
            x@ == encode_utf8(a@),
            y@ == encode_utf8(b@),
        decreases x@.len() - i,
    {
        if x[i] != y[i] {
            return false;
        }
        i = i + 1;
    }
    assert(x@ =~= y@);
    true
}

pub fn field_role(name: &str) -> (r: FieldRole)
    ensures
        r == role_of(name@),
{
    if same_text(name, "file") {
        FieldRole::File
    } else if same_text(name, "user") {
        FieldRole::User
    } else if same_text(name, "state") {
        FieldRole::State
    } else if same_text(name, "text") {
        FieldRole::Text
    } else {
        FieldRole::Ignored
    }
}

/// A file part of an upload form.
pub struct FilePart {
    pub file_name: String,
    pub content_type: String,
    pub data: Vec<u8>,
}

/// The fields of an upload form, gathered part by part. A later field of a
/// name replaces an earlier one; files are kept in the order they came.
pub struct UploadForm {
    pub user: String,
    pub text: String,
    pub state: String,
    pub files: Vec<FilePart>,
}

impl UploadForm {
    pub fn new() -> (r: UploadForm)
        ensures
            r.user@.len() == 0,
            r.text@.len() == 0,
            r.state@.len() == 0,
            r.files@.len() == 0,
    {
        UploadForm { user: String::new(), text: String::new(), state: String::new(), files: Vec::new() }
    }

    /// Takes a text field: `user`, `state` and `text` are set, any other
    /// name is ignored.
    pub fn set_field(&mut self, name: &str, value: String)
        ensures
            final(self).files@ == old(self).files@,
            final(self).user@ == (if role_of(name@) == FieldRole::User {
                value@
            } else {
                old(self).user@
            }),
            final(self).state@ == (if role_of(name@) == FieldRole::State {
                value@
            } else {
                old(self).state@
            }),
            final(self).text@ == (if role_of(name@) == FieldRole::Text {
                value@
            } else {
                old(self).text@
            }),
    {
        match field_role(name) {
            FieldRole::User => self.user = value,
            FieldRole::State => self.state = value,
            FieldRole::Text => self.text = value,
            _ => {},
        }
    }

    /// Takes a file part.
    pub fn add_file(&mut self, part: FilePart)
        ensures
            final(self).files@ == old(self).files@.push(part),
            final(self).user@ == old(self).user@,
            final(self).state@ == old(self).state@,
            final(self).text@ == old(self).text@,
    {
        self.files.push(part);
    }
}

/// What an accepted upload does on the platform: each file is uploaded on
/// its own to `channel`, then `message` is sent if there is one.
pub struct UploadPlan {
    pub token: String,
    pub channel: String,
    pub files: Vec<FilePart>,
    pub message: Option<String>,
}

/// The deliveries of an upload from what decrypting its state gave: none
/// where it failed. An empty text sends no message.
pub fn upload_deliveries(form: UploadForm, decrypted: Result<String, CipherError>) -> (r: Option<
    UploadPlan,
>)
    ensures
        match decrypted {
            Ok(t) => r is Some && {
                let p = r->0;
                &&& p.token@ == t@
                &&& p.channel@ == form.user@
                &&& p.files@ == form.files@
                &&& (form.text@.len() == 0 ==> p.message is None)
                &&& (form.text@.len() != 0 ==> p.message is Some && p.message->0@ == form.text@)
            },
            Err(_) => r is None,
        },
{
    match decrypted {
        Ok(token) => {
            let message = if form.text.as_str().is_empty() {
                None
            } else {
                Some(form.text)
            };
            Some(UploadPlan { token, channel: form.user, files: form.files, message })
        },
        Err(_) => None,
    }
}

/// The plan of a `PUT`. A form without a user or without a state is refused
/// before anything else, so no platform call is made. Otherwise the request
/// succeeds, and its deliveries are best effort: with no file and no text
/// there is nothing to deliver and the state is not even decrypted; a state
/// that does not decrypt delivers nothing.
pub fn upload_plan(cipher: &TokenCipher, form: UploadForm) -> (r: Result<Option<UploadPlan>, Failure>)
    ensures
        form.user@.len() == 0 || form.state@.len() == 0 ==> r == Err::<
            Option<UploadPlan>,
            Failure,
        >(Failure::MissingFields),
        form.user@.len() != 0 && form.state@.len() != 0 ==> r is Ok,
        form.files@.len() == 0 && form.text@.len() == 0 ==> r is Err || r->Ok_0 is None,
        cipher.refuses_state(form.state@) ==> r is Err || r->Ok_0 is None,
        r is Ok && r->Ok_0 is Some ==> {
            let p = r->Ok_0->0;
            &&& p.channel@ == form.user@
            &&& p.files@ == form.files@
            &&& cipher.decrypted_from(form.state@, p.token@)
            &&& (form.text@.len() == 0 ==> p.message is None)
            &&& (form.text@.len() != 0 ==> p.message is Some && p.message->0@ == form.text@)
        },
{
    if form.user.as_str().is_empty() || form.state.as_str().is_empty() {
        return Err(Failure::MissingFields);
    }
    if form.files.len() == 0 && form.text.as_str().is_empty() {
        return Ok(None);
    }
    let decrypted = cipher.decrypt(form.state.as_str());
    Ok(upload_deliveries(form, decrypted))
}

} // verus!
