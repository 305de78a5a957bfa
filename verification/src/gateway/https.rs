//! Messages sent over HTTPS: where they go, who sends them, and what an image is sent as.

use std::path::Path;
use vstd::prelude::*;

#[allow(unused_imports)]
use crate::gateway::events::{image_path, SLANDER_IMAGE};
use crate::gateway::payloads::content_text;
#[allow(unused_imports)]
use crate::gateway::payloads::{content_tree, signs_read_as};
#[allow(unused_imports)]
use crate::json::{json_parsed, json_rendered};
use crate::text::{cut_behind, join, same_text};
#[allow(unused_imports)]
use crate::text::{
    back_begins_behind_last_mark, behind_mark, decimal, decimal_reads_back, is_digit, opt_str_view,
    opt_view,
};

verus! {

/// Where messages for a channel are posted.
pub open spec fn channel_url(channel_id: Seq<char>) -> Seq<char> {
    "https://discord.com/api/v10/channels/"@ + channel_id + "/messages"@
}

/// Where messages for a channel are posted.
pub fn message_url(channel_id: &str) -> (url: String)
    ensures
        url@ == channel_url(channel_id@),
{
    let mut url = "https://discord.com/api/v10/channels/".to_owned();
    url.append(channel_id);
    url.append("/messages");
    url
}

/// How the bot authorizes itself.
pub fn bot_authorization(token: &str) -> (authorization: String)
    ensures
        authorization@ == "Bot "@ + token@,
{
    join("Bot ", token)
}

/// What is said where an image cannot be read.
pub fn unreadable_image(path: &str) -> (message: String)
    ensures
        message@ == "Failed to read image file: "@ + path@,
{
    join("Failed to read image file: ", path)
}

/// What is said where a message was refused. The body of the answer may have been lost.
pub open spec fn refusal_text(status: Seq<char>, body: Option<Seq<char>>) -> Seq<char> {
    "Discord API returned error status: "@ + status + " - "@ + match body {
        Some(text) => text,
        None => "Unknown error"@,
    }
}

/// What is said where a message was refused with this status.
pub fn refusal(status: &str, body: Option<&str>) -> (message: String)
    ensures
        message@ == refusal_text(status@, opt_str_view(body)),
{
    let mut message = "Discord API returned error status: ".to_owned();
    message.append(status);
    message.append(" - ");
    match body {
        Some(text) => message.append(text),
        None => message.append("Unknown error"),
    }
    message
}

/// Whether a status says that a message was taken.
pub fn is_accepted(status: u16) -> (accepted: bool)
    ensures
        accepted == (200 <= status <= 299),
{
    200 <= status && status <= 299
}

/// What comes of posting a message that was answered with this status, which reads `status_text`:
/// nothing more where the message was taken, else what is said of the refusal.
pub fn post_outcome(status: u16, status_text: &str, body: Option<&str>) -> (outcome: Result<
    (),
    String,
>)
    ensures
        outcome is Ok == (200 <= status <= 299),
        outcome matches Err(message) ==> message@ == refusal_text(
            status_text@,
            opt_str_view(body),
        ),
{
    if is_accepted(status) {
        Ok(())
    } else {
        Err(refusal(status_text, body))
    }
}

/// What is said where a message found no answer.
pub fn unanswered() -> (message: &'static str)
    ensures
        message@ == "Failed to send HTTP request to Discord API"@,
{
    "Failed to send HTTP request to Discord API"
}

/// How far the sending of an image came.
pub enum FormAttempt<'a> {
    /// The image could not be read.
    Unreadable,
    /// The request found no answer.
    Unanswered,
    /// The request was answered with this status and this body, unless the body was lost.
    Answered { status: u16, status_text: &'a str, body: Option<&'a str> },
}

/// What comes of sending the image at `path`: nothing more where the message was taken, else what
/// is said of the failure.
pub fn form_outcome(path: &str, attempt: FormAttempt<'_>) -> (outcome: Result<(), String>)
    ensures
        outcome is Ok == (attempt matches FormAttempt::Answered { status, .. } && 200 <= status
            <= 299),
        outcome matches Err(message) ==> message@ == match attempt {
            FormAttempt::Unreadable => "Failed to read image file: "@ + path@,
            FormAttempt::Unanswered => "Failed to send HTTP request to Discord API"@,
            FormAttempt::Answered { status_text, body, .. } => refusal_text(
                status_text@,
                opt_str_view(body),
            ),
        },
{
    match attempt {
        FormAttempt::Unreadable => Err(unreadable_image(path)),
        FormAttempt::Unanswered => Err(unanswered().to_owned()),
        FormAttempt::Answered { status, status_text, body } => post_outcome(
            status,
            status_text,
            body,
        ),
    }
}

/// Whether a path is read alike wherever the bot runs: it has no backslash and no colon, and does
/// not begin with two slashes.
pub open spec fn is_portable(path: Seq<char>) -> bool {
    &&& !path.contains('\\')
    &&& !path.contains(':')
    &&& !(path.len() >= 2 && path[0] == '/' && path[1] == '/')
}

/// The last component of a portable path, where it names something: slashes at the end, slashes in
/// a row and single dots do not count, and two dots name nothing.
pub open spec fn last_component(path: Seq<char>) -> Option<Seq<char>>
    decreases path.len(),
{
    let piece = behind_mark(path, '/');
    if piece.len() == 0 || piece == seq!['.'] {
        if piece.len() < path.len() {
            last_component(path.take(path.len() - piece.len() - 1))
        } else {
            None
        }
    } else if piece == seq!['.', '.'] {
        None
    } else {
        Some(piece)
    }
}

/// Whether `name` stands somewhere in `path`.
pub open spec fn stands_in(name: Seq<char>, path: Seq<char>) -> bool {
    exists|start: int|
        0 <= start <= path.len() - name.len() && name == #[trigger] path.subrange(
            start,
            start + name.len(),
        )
}

/// Whether a file at `path` may be called `name` on some system: the name is a part of the path,
/// and holds no slash, but that a path which begins with a backslash may be taken as it stands.
pub open spec fn may_be_called(path: Seq<char>, name: Seq<char>) -> bool {
    &&& stands_in(name, path)
    &&& (path.len() > 0 && path[0] == '\\') || !name.contains('/')
}

/// Calls `std::path::Path::file_name`. On a portable path that is its last component. What the
/// function makes of other paths depends on the system; on every system it hands out a part of the
/// path, between separators, and the slash is one of them wherever the path does not begin with a
/// backslash.
#[verifier::external_body]
fn file_name(path: &str) -> (name: Option<String>)
    ensures
        is_portable(path@) ==> opt_view(name) == last_component(path@),
        name matches Some(n) ==> may_be_called(path@, n@),
{
    Path::new(path).file_name().and_then(|name| name.to_str()).map(|name| name.to_owned())
}

/// The text in lower case, as `str::to_lowercase` has it.
pub uninterp spec fn lowercased(text: Seq<char>) -> Seq<char>;

/// Whether the text is made of ASCII characters.
pub open spec fn is_ascii_text(text: Seq<char>) -> bool {
    forall|i: int| 0 <= i < text.len() ==> (#[trigger] text[i] as int) < 128
}

/// The lower case of an ASCII character.
pub open spec fn ascii_lower(c: char) -> char {
    if 'A' <= c <= 'Z' {
        (c as int + 32) as char
    } else {
        c
    }
}

/// The lower case of ASCII text.
pub open spec fn ascii_lowered(text: Seq<char>) -> Seq<char> {
    text.map_values(|c: char| ascii_lower(c))
}

/// Calls `str::to_lowercase`, which depends on the text alone. Of ASCII text it changes the upper
/// case letters, each into its lower case, and nothing else.
#[verifier::external_body]
fn lower_case(text: &str) -> (lower: String)
    ensures
        lower@ == lowercased(text@),
        is_ascii_text(text@) ==> lower@ == ascii_lowered(text@),
{
    text.to_lowercase()
}

/// The extension of a file name: what follows its last dot, unless that is its first character.
pub open spec fn extension_of(name: Seq<char>) -> Option<Seq<char>> {
    let extension = behind_mark(name, '.');
    if extension.len() + 1 < name.len() {
        Some(extension)
    } else {
        None
    }
}

/// The extension of a file name.
pub fn extension<'a>(name: &'a str) -> (extension: Option<&'a str>)
    ensures
        opt_str_view(extension) == extension_of(name@),
{
    let behind = cut_behind(name, '.');
    let total: usize = name.unicode_len();
    let length: usize = behind.unicode_len();
    if length < total && length + 1 < total {
        Some(behind)
    } else {
        None
    }
}

/// The media type that stands for an extension in lower case.
pub open spec fn media_type(extension: Seq<char>) -> Seq<char> {
    if extension == "jpg"@ || extension == "jpeg"@ {
        "image/jpeg"@
    } else if extension == "gif"@ {
        "image/gif"@
    } else if extension == "webp"@ {
        "image/webp"@
    } else {
        "image/png"@
    }
}

/// The media type that stands for an extension in lower case; PNG where nothing else is known.
pub fn mime_type(extension: &str) -> (mime: &'static str)
    ensures
        mime@ == media_type(extension@),
{
    if same_text(extension, "jpg") || same_text(extension, "jpeg") {
        "image/jpeg"
    } else if same_text(extension, "gif") {
        "image/gif"
    } else if same_text(extension, "webp") {
        "image/webp"
    } else {
        "image/png"
    }
}

/// What an image is sent as, next to its bytes.
pub struct ImageForm {
    pub payload_json: String,
    pub file_name: String,
    pub mime_type: &'static str,
}

/// The name that an image is sent under, where the file is called `name`.
pub open spec fn sent_name(name: Option<Seq<char>>) -> Seq<char> {
    match name {
        Some(n) => n,
        None => "image.png"@,
    }
}

/// The media type that an image is sent as, where the file is called `name`.
pub open spec fn sent_type(name: Option<Seq<char>>) -> Seq<char> {
    match name {
        Some(n) => match extension_of(n) {
            Some(extension) => media_type(lowercased(extension)),
            None => "image/png"@,
        },
        None => "image/png"@,
    }
}

/// Whether this is how an image in the file `name` is sent with `text`.
pub open spec fn is_form(form: ImageForm, text: Seq<char>, name: Option<Seq<char>>) -> bool {
    &&& form.payload_json@ == json_rendered(content_tree(text))
    &&& json_parsed(form.payload_json@) == Some(content_tree(text))
    &&& form.file_name@ == sent_name(name)
    &&& form.mime_type@ == sent_type(name)
}

/// How an image in the file `name` is sent with `text`.
pub fn image_form(text: &str, name: Option<String>) -> (form: ImageForm)
    ensures
        is_form(form, text@, opt_view(name)),
        opt_view(name) matches Some(n) ==> (extension_of(n) matches Some(e) ==> (is_ascii_text(e)
            ==> form.mime_type@ == media_type(ascii_lowered(e)))),
{
    let payload_json = content_text(text);
    match name {
        Some(file_name) => {
            let mime_type = match extension(file_name.as_str()) {
                Some(e) => mime_type(lower_case(e).as_str()),
                None => "image/png",
            };
            ImageForm { payload_json, file_name, mime_type }
        },
        None => ImageForm {
            payload_json,
            file_name: "image.png".to_owned(),
            mime_type: "image/png",
        },
    }
}

/// Whether this is how the image at `path` is sent with `text`: under the name of the file, as far
/// as `path` is read alike everywhere, and as what the extension says.
pub open spec fn is_payload(form: ImageForm, text: Seq<char>, path: Seq<char>) -> bool {
    &&& exists|name: Option<Seq<char>>| #[trigger]
        is_form(form, text, name) && (name matches Some(n) ==> may_be_called(path, n))
    &&& is_portable(path) ==> is_form(form, text, last_component(path))
    &&& is_portable(path) ==> (last_component(path) matches Some(n) ==> (extension_of(
        n,
    ) matches Some(e) ==> (is_ascii_text(e) ==> form.mime_type@ == media_type(
        ascii_lowered(e),
    ))))
}

/// How the image at `path` is sent with `text`.
pub fn make_image_payload(text: &str, path: &str) -> (form: ImageForm)
    ensures
        is_payload(form, text@, path@),
{
    image_form(text, file_name(path))
}

/// An image of the bot is sent under the name of its file, and as a JPEG.
proof fn lemma_image_payload(form: ImageForm, text: Seq<char>, path: Seq<char>, stem: Seq<char>)
    requires
        is_payload(form, text, path),
        path == "images/"@ + stem + ".jpg"@,
        stem.len() > 0,
        forall|i: int|
            0 <= i < stem.len() ==> (#[trigger] stem[i] == '_' || 'a' <= stem[i] <= 'z' || is_digit(
                stem[i],
            )),
    ensures
        form.file_name@ == stem + ".jpg"@,
        form.mime_type@ == "image/jpeg"@,
{
    reveal_strlit("images/");
    reveal_strlit("images");
    reveal_strlit(".jpg");
    reveal_strlit("jpg");
    let name = stem + ".jpg"@;
    assert("images/"@ =~= "images"@.push('/'));
    assert(path =~= "images"@ + seq!['/'] + name);
    back_begins_behind_last_mark("images"@, '/', name);
    assert(name =~= stem + seq!['.'] + "jpg"@);
    back_begins_behind_last_mark(stem, '.', "jpg"@);
    assert(is_portable(path));
    assert(name.len() >= 5);
    assert(last_component(path) == Some(name));
    assert(extension_of(name) == Some("jpg"@));
    assert(is_ascii_text("jpg"@));
    assert(ascii_lowered("jpg"@) =~= "jpg"@);
}

/// Every image that the bot sends goes out under the name of its file, and as a JPEG.
pub proof fn bot_images_are_jpegs(form: ImageForm, text: Seq<char>, number: nat)
    ensures
        is_payload(form, text, SLANDER_IMAGE@) ==> form.file_name@ == "leo_slander.jpg"@
            && form.mime_type@ == "image/jpeg"@,
        is_payload(form, text, image_path(number)) ==> form.file_name@ == "leo_"@ + decimal(number)
            + ".jpg"@ && form.mime_type@ == "image/jpeg"@,
{
    reveal_strlit("images/");
    reveal_strlit("images/leo_");
    reveal_strlit("leo_");
    reveal_strlit(".jpg");
    reveal_strlit("leo_slander");
    reveal_strlit("leo_slander.jpg");
    reveal_strlit("images/leo_slander.jpg");
    if is_payload(form, text, SLANDER_IMAGE@) {
        let stem = "leo_slander"@;
        assert(SLANDER_IMAGE@ =~= "images/"@ + stem + ".jpg"@);
        assert("leo_slander.jpg"@ =~= stem + ".jpg"@);
        lemma_image_payload(form, text, SLANDER_IMAGE@, stem);
    }
    if is_payload(form, text, image_path(number)) {
        let stem = "leo_"@ + decimal(number);
        decimal_reads_back(number);
        assert(image_path(number) =~= "images/"@ + stem + ".jpg"@);
        lemma_image_payload(form, text, image_path(number), stem);
    }
}

/// Messages for a channel go to the address that holds its whole id, and so those for two channels
/// to two addresses.
pub proof fn channels_have_their_own_address(channel_id: Seq<char>, other: Seq<char>)
    ensures
        channel_url(channel_id) == "https://discord.com/api/v10/channels/"@ + channel_id
            + "/messages"@,
        channel_url(channel_id) == channel_url(other) ==> channel_id == other,
{
    let front = "https://discord.com/api/v10/channels/"@;
    let back = "/messages"@;
    let a = channel_url(channel_id);
    let b = channel_url(other);
    if a == b {
        assert(a.len() == front.len() + channel_id.len() + back.len());
        assert(b.len() == front.len() + other.len() + back.len());
        assert(channel_id =~= a.subrange(front.len() as int, (a.len() - back.len()) as int));
        assert(other =~= b.subrange(front.len() as int, (b.len() - back.len()) as int));
    }
}

/// A refusal names the status and the whole body of the answer, or says that the error is unknown.
pub proof fn refusal_names_status_and_body(status: Seq<char>, body: Seq<char>)
    ensures
        refusal_text(status, Some(body)) == "Discord API returned error status: "@ + status + " - "@
            + body,
        refusal_text(status, None) == "Discord API returned error status: "@ + status + " - "@
            + "Unknown error"@,
{
}

/// The last component of a path is what follows the last slash; a slash or a slash and a dot behind
/// a path change nothing, and two dots name nothing.
pub proof fn last_component_follows_last_slash(folder: Seq<char>, name: Seq<char>)
    requires
        name.len() > 0,
        name != seq!['.'],
        name != seq!['.', '.'],
        forall|i: int| 0 <= i < name.len() ==> name[i] != '/',
    ensures
        last_component(folder + seq!['/'] + name) == Some(name),
        last_component(name) == Some(name),
        last_component(folder + seq!['/']) == last_component(folder),
        last_component(folder + seq!['/'] + seq!['.']) == last_component(folder),
        last_component(folder + seq!['/'] + seq!['.', '.']) is None,
        last_component(Seq::empty()) is None,
{
    back_begins_behind_last_mark(folder, '/', name);
    back_begins_behind_last_mark(folder, '/', Seq::empty());
    back_begins_behind_last_mark(folder, '/', seq!['.']);
    back_begins_behind_last_mark(folder, '/', seq!['.', '.']);
    let ended = folder + seq!['/'];
    let dotted = folder + seq!['/'] + seq!['.'];
    assert(ended + Seq::<char>::empty() =~= ended);
    assert(ended.take(ended.len() - 1) =~= folder);
    assert(dotted.take(dotted.len() - 2) =~= folder);
}

/// The extension of a name is what follows its last dot, where something stands before the dot.
pub proof fn extension_follows_last_dot(stem: Seq<char>, extension: Seq<char>)
    requires
        forall|i: int| 0 <= i < extension.len() ==> extension[i] != '.',
    ensures
        stem.len() > 0 ==> extension_of(stem + seq!['.'] + extension) == Some(extension),
        extension_of(seq!['.'] + extension) is None,
        extension_of(extension) is None,
{
    back_begins_behind_last_mark(stem, '.', extension);
    back_begins_behind_last_mark(Seq::empty(), '.', extension);
    assert(Seq::<char>::empty() + seq!['.'] + extension =~= seq!['.'] + extension);
}

/// The media types by extension.
pub proof fn media_types_by_extension(extension: Seq<char>)
    ensures
        media_type("jpg"@) == "image/jpeg"@,
        media_type("jpeg"@) == "image/jpeg"@,
        media_type("png"@) == "image/png"@,
        media_type("gif"@) == "image/gif"@,
        media_type("webp"@) == "image/webp"@,
        extension != "jpg"@ && extension != "jpeg"@ && extension != "gif"@ && extension != "webp"@
            ==> media_type(extension) == "image/png"@,
{
    reveal_strlit("jpg");
    reveal_strlit("jpeg");
    reveal_strlit("png");
    reveal_strlit("gif");
    reveal_strlit("webp");
    assert("jpg"@.len() == 3 && "jpeg"@.len() == 4 && "png"@.len() == 3 && "gif"@.len() == 3
        && "webp"@.len() == 4);
    assert("jpg"@[0] == 'j' && "jpeg"@[0] == 'j' && "png"@[0] == 'p' && "gif"@[0] == 'g'
        && "webp"@[0] == 'w');
}

/// Lower case changes the capital letters of ASCII text, each to its small letter, and nothing else.
pub proof fn capitals_become_small(text: Seq<char>, i: int)
    requires
        0 <= i < text.len(),
    ensures
        ascii_lowered(text).len() == text.len(),
        65 <= text[i] as int <= 90 ==> ascii_lowered(text)[i] as int == text[i] as int + 32,
        !(65 <= text[i] as int <= 90) ==> ascii_lowered(text)[i] == text[i],
{
}

/// An image in a folder is sent with the text, under the whole name of its file, and as what its
/// extension says, in capitals or not.
pub proof fn image_is_sent_as_what_it_is(
    form: ImageForm,
    text: Seq<char>,
    folder: Seq<char>,
    stem: Seq<char>,
    extension: Seq<char>,
)
    requires
        is_payload(form, text, folder + seq!['/'] + (stem + seq!['.'] + extension)),
        stem.len() > 0,
        extension.len() > 0,
        forall|i: int| 0 <= i < extension.len() ==> extension[i] != '.',
        forall|i: int| 0 <= i < extension.len() ==> (#[trigger] extension[i] as int) < 128,
        !(folder + seq!['/'] + (stem + seq!['.'] + extension)).contains('\\'),
        !(folder + seq!['/'] + (stem + seq!['.'] + extension)).contains(':'),
        forall|i: int| 0 <= i < stem.len() ==> stem[i] != '/',
        forall|i: int| 0 <= i < extension.len() ==> extension[i] != '/',
        folder.len() > 0,
        folder[0] != '/',
    ensures
        json_parsed(form.payload_json@) matches Some(said) && said.get("content"@)
            == crate::json::JsonTree::Str(text),
        form.file_name@ == stem + seq!['.'] + extension,
        form.mime_type@ == media_type(ascii_lowered(extension)),
{
    let name = stem + seq!['.'] + extension;
    let path = folder + seq!['/'] + name;
    signs_read_as(0, 0, text);
    assert forall|i: int| 0 <= i < name.len() implies name[i] != '/' by {}
    assert(name.len() >= 3);
    last_component_follows_last_slash(folder, name);
    extension_follows_last_dot(stem, extension);
    assert(path[0] == folder[0]);
    assert(is_portable(path));
}

/// Paths without a backslash and a colon, and without two slashes in front, are read alike
/// everywhere.
pub proof fn ordinary_paths_are_portable(path: Seq<char>)
    ensures
        (forall|i: int| 0 <= i < path.len() ==> path[i] != '\\' && path[i] != ':') && (path.len()
            < 2 || path[0] != '/' || path[1] != '/') ==> is_portable(path),
{
}

/// A name that a file may have is found in its path, character by character.
pub proof fn name_is_part_of_path(path: Seq<char>, name: Seq<char>)
    requires
        may_be_called(path, name),
    ensures
        exists|start: int|
            0 <= start <= path.len() - name.len() && name == #[trigger] path.subrange(
                start,
                start + name.len(),
            ),
        path.len() > 0 && path[0] != '\\' ==> !name.contains('/'),
{
}

/// A form says the text whole, and the name and the media type of the file: what is behind the last
/// dot of the name decides the type, and without one the image counts as a PNG, as it does without
/// a name.
pub proof fn form_says_text_name_and_type(
    form: ImageForm,
    text: Seq<char>,
    stem: Seq<char>,
    extension: Seq<char>,
)
    requires
        forall|i: int| 0 <= i < extension.len() ==> extension[i] != '.',
    ensures
        is_form(form, text, None) ==> form.file_name@ == "image.png"@ && form.mime_type@
            == "image/png"@ && json_parsed(form.payload_json@) == Some(content_tree(text)),
        is_form(form, text, Some(extension)) ==> form.file_name@ == extension && form.mime_type@
            == "image/png"@ && json_parsed(form.payload_json@) == Some(content_tree(text)),
        is_form(form, text, Some(stem + seq!['.'] + extension)) && stem.len() > 0
            ==> form.file_name@ == stem + seq!['.'] + extension && form.mime_type@ == media_type(
            lowercased(extension),
        ) && json_parsed(form.payload_json@) == Some(content_tree(text)),
{
    extension_follows_last_dot(stem, extension);
}

} // verus!
