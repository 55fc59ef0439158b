//! The line protocol of the worker: one JSON object per line, tagged by its
//! `type` member.
//!
//! A line is blank, too long, malformed, or a message. Nothing a line holds
//! ends the reading: whatever is not a message is dropped.

use vstd::prelude::*;
use crate::json::{
    items_view, json_document, lemma_json_view, members_view, opt_json, parse_json, Json,
    JsonView, Member, MembersView,
};
use crate::text::{is_blank, is_blank_line, is_text, opt_text};
use crate::types::{
    zone_infos_view, MessageView, NowPlayingInfo, PlaybackState, SidecarMessage, TrackInfoView,
    ZoneInfo, ZoneInfoView,
};

verus! {

/// The longest line that is read as a message, in bytes.
pub const MAX_LINE_BYTES: usize = 1048576;

/// The member that tells the kinds of message apart.
pub const TAG_MEMBER: &'static str = "type";

/// The tag of a report of a track.
pub const TAG_NOW_PLAYING: &'static str = "now_playing";

/// The tag of a zone list.
pub const TAG_ZONE_LIST: &'static str = "zone_list";

/// The tag of a status.
pub const TAG_STATUS: &'static str = "status";

/// The tag of an error.
pub const TAG_ERROR: &'static str = "error";

/// The value of the first member that bears the name `name`, looking from `from` on.
pub open spec fn member_of(members: MembersView, name: Seq<char>, from: int) -> Option<JsonView>
    decreases members.len() - from,
{
    if from < 0 || from >= members.len() {
        None
    } else if members[from].0 == name {
        Some(members[from].1)
    } else {
        member_of(members, name, from + 1)
    }
}

/// A member that has to be there and has to be a string.
pub open spec fn required_text(members: MembersView, name: Seq<char>) -> Option<Seq<char>> {
    match member_of(members, name, 0) {
        Some(JsonView::Text(s)) => Some(s),
        _ => None,
    }
}

/// A member that may be missing or null, and is a string if it is neither.
/// The outer `None` says that it is something else.
pub open spec fn optional_text(members: MembersView, name: Seq<char>) -> Option<Option<Seq<char>>> {
    match member_of(members, name, 0) {
        None => Some(None),
        Some(JsonView::Null) => Some(None),
        Some(JsonView::Text(s)) => Some(Some(s)),
        _ => None,
    }
}

/// The playback state that a word of the protocol stands for.
pub open spec fn playback_for(word: Seq<char>) -> Option<PlaybackState> {
    if word == "playing"@ {
        Some(PlaybackState::Playing)
    } else if word == "paused"@ {
        Some(PlaybackState::Paused)
    } else if word == "stopped"@ {
        Some(PlaybackState::Stopped)
    } else if word == "loading"@ {
        Some(PlaybackState::Loading)
    } else {
        None
    }
}

/// The member `state`, which has to be a word for a playback state.
pub open spec fn required_state(members: MembersView) -> Option<PlaybackState> {
    match required_text(members, "state"@) {
        Some(word) => playback_for(word),
        None => None,
    }
}

/// The track of a zone list entry: an object with a title, an artist and an
/// album, and artwork or none.
pub open spec fn track_info_of(document: JsonView) -> Option<TrackInfoView> {
    match document {
        JsonView::Record(members) => match (
            required_text(members, "title"@),
            required_text(members, "artist"@),
            required_text(members, "album"@),
            optional_text(members, "artwork"@),
        ) {
            (Some(title), Some(artist), Some(album), Some(artwork)) => Some(
                TrackInfoView { title, artist, album, artwork },
            ),
            _ => None,
        },
        _ => None,
    }
}

/// The member `now_playing` of a zone list entry: missing, null, or a track.
pub open spec fn optional_track_info(members: MembersView) -> Option<Option<TrackInfoView>> {
    match member_of(members, "now_playing"@, 0) {
        None => Some(None),
        Some(JsonView::Null) => Some(None),
        Some(document) => match track_info_of(document) {
            Some(track) => Some(Some(track)),
            None => None,
        },
    }
}

/// A zone list entry: an object with an id, a name and a state, and a track or none.
pub open spec fn zone_info_of(document: JsonView) -> Option<ZoneInfoView> {
    match document {
        JsonView::Record(members) => match (
            required_text(members, "zone_id"@),
            required_text(members, "display_name"@),
            required_state(members),
            optional_track_info(members),
        ) {
            (Some(zone_id), Some(display_name), Some(state), Some(now_playing)) => Some(
                ZoneInfoView { zone_id, display_name, state, now_playing },
            ),
            _ => None,
        },
        _ => None,
    }
}

/// The entries of a zone list: every item has to be one.
pub open spec fn zone_infos_of(items: Seq<JsonView>) -> Option<Seq<ZoneInfoView>> {
    if forall|i: int| 0 <= i < items.len() ==> (#[trigger] zone_info_of(items[i])) is Some {
        Some(Seq::new(items.len(), |i: int| zone_info_of(items[i])->0))
    } else {
        None
    }
}

/// The member `zones`, which has to be an array of zone list entries.
pub open spec fn required_zones(members: MembersView) -> Option<Seq<ZoneInfoView>> {
    match member_of(members, "zones"@, 0) {
        Some(JsonView::List(items)) => zone_infos_of(items),
        _ => None,
    }
}

/// The message that the members of an object spell under the tag `tag`.
pub open spec fn message_for(tag: Seq<char>, members: MembersView) -> Option<MessageView> {
    if tag == TAG_NOW_PLAYING@ {
        match (
            required_text(members, "zone_id"@),
            required_text(members, "title"@),
            required_text(members, "artist"@),
            required_text(members, "album"@),
            required_state(members),
            optional_text(members, "artwork"@),
        ) {
            (Some(zone_id), Some(title), Some(artist), Some(album), Some(state), Some(artwork)) => {
                Some(MessageView::NowPlaying { zone_id, title, artist, album, state, artwork })
            },
            _ => None,
        }
    } else if tag == TAG_ZONE_LIST@ {
        match required_zones(members) {
            Some(zones) => Some(MessageView::ZoneList { zones }),
            None => None,
        }
    } else if tag == TAG_STATUS@ {
        match (required_text(members, "state"@), optional_text(members, "message"@)) {
            (Some(state), Some(message)) => Some(MessageView::Status { state, message }),
            _ => None,
        }
    } else if tag == TAG_ERROR@ {
        match required_text(members, "message"@) {
            Some(message) => Some(MessageView::Error { message }),
            None => None,
        }
    } else {
        None
    }
}

/// The message that a document spells: the document is an object, its
/// member `type` is one of the four tags, and the members that the tag asks
/// for are there and of the right kind. Members that no tag asks for are
/// passed over.
pub open spec fn message_of(document: JsonView) -> Option<MessageView> {
    match document {
        JsonView::Record(members) => match required_text(members, TAG_MEMBER@) {
            Some(tag) => message_for(tag, members),
            None => None,
        },
        _ => None,
    }
}

/// The view of an optional message.
pub open spec fn opt_message(message: Option<SidecarMessage>) -> Option<MessageView> {
    match message {
        Some(m) => Some(m@),
        None => None,
    }
}

/// Finds the first member of the name `name`.
fn find_member<'a>(members: &'a Vec<Member>, name: &str) -> (found: Option<&'a Json>)
    ensures
        match found {
            Some(value) => member_of(members_view(members@), name@, 0) == Some(value@),
            None => member_of(members_view(members@), name@, 0) is None,
        },
{
    let wanted = name.to_owned();
    let mut i: usize = 0;
    while i < members.len()
        invariant
            i <= members.len(),
            wanted@ == name@,
            member_of(members_view(members@), name@, 0) == member_of(
                members_view(members@),
                name@,
                i as int,
            ),
        decreases members.len() - i,
    {
        if members[i].name == wanted {
            return Some(&members[i].value);
        }
        i += 1;
    }
    None
}

/// Reads a member that has to be a string.
fn read_required_text(members: &Vec<Member>, name: &str) -> (text: Option<String>)
    ensures
        opt_text(text) == required_text(members_view(members@), name@),
{
    match find_member(members, name) {
        Some(Json::Text(s)) => Some(s.clone()),
        _ => None,
    }
}

/// The view of the result of reading an optional string.
spec fn opt_opt_text(text: Option<Option<String>>) -> Option<Option<Seq<char>>> {
    match text {
        Some(t) => Some(opt_text(t)),
        None => None,
    }
}

/// Reads a member that is a string, null or missing.
fn read_optional_text(members: &Vec<Member>, name: &str) -> (text: Option<Option<String>>)
    ensures
        opt_opt_text(text) == optional_text(members_view(members@), name@),
{
    match find_member(members, name) {
        None => Some(None),
        Some(Json::Null) => Some(None),
        Some(Json::Text(s)) => Some(Some(s.clone())),
        Some(_) => None,
    }
}

/// Reads a word for a playback state.
pub fn parse_playback(word: &String) -> (state: Option<PlaybackState>)
    ensures
        state == playback_for(word@),
{
    if is_text(word, "playing") {
        Some(PlaybackState::Playing)
    } else if is_text(word, "paused") {
        Some(PlaybackState::Paused)
    } else if is_text(word, "stopped") {
        Some(PlaybackState::Stopped)
    } else if is_text(word, "loading") {
        Some(PlaybackState::Loading)
    } else {
        None
    }
}

/// Reads the member `state`.
fn read_required_state(members: &Vec<Member>) -> (state: Option<PlaybackState>)
    ensures
        state == required_state(members_view(members@)),
{
    match read_required_text(members, "state") {
        Some(word) => parse_playback(&word),
        None => None,
    }
}

/// The view of an optional track of a zone list entry.
spec fn opt_info(info: Option<NowPlayingInfo>) -> Option<TrackInfoView> {
    match info {
        Some(t) => Some(t@),
        None => None,
    }
}

/// Reads the track of a zone list entry.
fn read_track_info(document: &Json) -> (track: Option<NowPlayingInfo>)
    ensures
        opt_info(track) == track_info_of(document@),
{
    proof {
        lemma_json_view(*document);
    }
    match document {
        Json::Record(members) => {
            let title = read_required_text(members, "title");
            let artist = read_required_text(members, "artist");
            let album = read_required_text(members, "album");
            let artwork = read_optional_text(members, "artwork");
            match (title, artist, album, artwork) {
                (Some(title), Some(artist), Some(album), Some(artwork)) => Some(
                    NowPlayingInfo { title, artist, album, artwork },
                ),
                _ => None,
            }
        },
        _ => None,
    }
}

/// The view of the result of reading an optional track.
spec fn opt_opt_info(info: Option<Option<NowPlayingInfo>>) -> Option<Option<TrackInfoView>> {
    match info {
        Some(t) => Some(opt_info(t)),
        None => None,
    }
}

/// Reads the member `now_playing` of a zone list entry.
fn read_optional_track_info(members: &Vec<Member>) -> (track: Option<Option<NowPlayingInfo>>)
    ensures
        opt_opt_info(track) == optional_track_info(members_view(members@)),
{
    match find_member(members, "now_playing") {
        None => Some(None),
        Some(Json::Null) => Some(None),
        Some(document) => match read_track_info(document) {
            Some(track) => Some(Some(track)),
            None => None,
        },
    }
}

/// The view of an optional zone list entry.
spec fn opt_zone_info(info: Option<ZoneInfo>) -> Option<ZoneInfoView> {
    match info {
        Some(z) => Some(z@),
        None => None,
    }
}

/// Reads a zone list entry.
fn read_zone_info(document: &Json) -> (zone: Option<ZoneInfo>)
    ensures
        opt_zone_info(zone) == zone_info_of(document@),
{
    proof {
        lemma_json_view(*document);
    }
    match document {
        Json::Record(members) => {
            let zone_id = read_required_text(members, "zone_id");
            let display_name = read_required_text(members, "display_name");
            let state = read_required_state(members);
            let now_playing = read_optional_track_info(members);
            match (zone_id, display_name, state, now_playing) {
                (Some(zone_id), Some(display_name), Some(state), Some(now_playing)) => Some(
                    ZoneInfo { zone_id, display_name, state, now_playing },
                ),
                _ => None,
            }
        },
        _ => None,
    }
}

/// The view of an optional list of zone list entries.
spec fn opt_zone_infos(infos: Option<Vec<ZoneInfo>>) -> Option<Seq<ZoneInfoView>> {
    match infos {
        Some(z) => Some(zone_infos_view(z@)),
        None => None,
    }
}

/// Reads the entries of a zone list.
fn read_zone_infos(items: &Vec<Json>) -> (zones: Option<Vec<ZoneInfo>>)
    ensures
        opt_zone_infos(zones) == zone_infos_of(items_view(items@)),
{
    let mut zones: Vec<ZoneInfo> = Vec::new();
    let mut i: usize = 0;
    while i < items.len()
        invariant
            i <= items.len(),
            zones.len() == i,
            forall|k: int|
                0 <= k < i ==> (#[trigger] zone_info_of(items_view(items@)[k])) == Some(zones@[k]@),
        decreases items.len() - i,
    {
        match read_zone_info(&items[i]) {
            Some(zone) => {
                zones.push(zone);
            },
            None => {
                assert(zone_info_of(items_view(items@)[i as int]) is None);
                return None;
            },
        }
        i += 1;
    }
    assert(zone_infos_view(zones@) =~= zone_infos_of(items_view(items@))->0);
    Some(zones)
}

/// Reads the member `zones`.
fn read_required_zones(members: &Vec<Member>) -> (zones: Option<Vec<ZoneInfo>>)
    ensures
        opt_zone_infos(zones) == required_zones(members_view(members@)),
{
    match find_member(members, "zones") {
        Some(value) => {
            proof {
                lemma_json_view(*value);
            }
            match value {
                Json::List(items) => read_zone_infos(items),
                _ => None,
            }
        },
        None => None,
    }
}

/// Reads the members of an object as the message that `tag` names.
fn read_message(tag: &String, members: &Vec<Member>) -> (message: Option<SidecarMessage>)
    ensures
        opt_message(message) == message_for(tag@, members_view(members@)),
{
    if is_text(tag, TAG_NOW_PLAYING) {
        let zone_id = read_required_text(members, "zone_id");
        let title = read_required_text(members, "title");
        let artist = read_required_text(members, "artist");
        let album = read_required_text(members, "album");
        let state = read_required_state(members);
        let artwork = read_optional_text(members, "artwork");
        match (zone_id, title, artist, album, state, artwork) {
            (Some(zone_id), Some(title), Some(artist), Some(album), Some(state), Some(artwork)) => {
                Some(SidecarMessage::NowPlaying { zone_id, title, artist, album, state, artwork })
            },
            _ => None,
        }
    } else if is_text(tag, TAG_ZONE_LIST) {
        match read_required_zones(members) {
            Some(zones) => Some(SidecarMessage::ZoneList { zones }),
            None => None,
        }
    } else if is_text(tag, TAG_STATUS) {
        let state = read_required_text(members, "state");
        let message = read_optional_text(members, "message");
        match (state, message) {
            (Some(state), Some(message)) => Some(SidecarMessage::Status { state, message }),
            _ => None,
        }
    } else if is_text(tag, TAG_ERROR) {
        match read_required_text(members, "message") {
            Some(message) => Some(SidecarMessage::Error { message }),
            None => None,
        }
    } else {
        None
    }
}

/// Reads a document as a message of the worker.
pub fn decode_message(document: &Json) -> (message: Option<SidecarMessage>)
    ensures
        opt_message(message) == message_of(document@),
{
    proof {
        lemma_json_view(*document);
    }
    match document {
        Json::Record(members) => match read_required_text(members, TAG_MEMBER) {
            Some(tag) => read_message(&tag, members),
            None => None,
        },
        _ => None,
    }
}

/// View of [`LineOutcome`].
#[verifier::ext_equal]
pub enum LineOutcomeView {
    Blank,
    Oversize,
    Malformed,
    Message(MessageView),
}

/// What a line of the worker's output is.
#[derive(Debug, PartialEq, Eq)]
pub enum LineOutcome {
    /// Nothing but white space: passed over.
    Blank,
    /// Longer than [`MAX_LINE_BYTES`]: dropped.
    Oversize,
    /// No JSON, or JSON that spells no message: dropped.
    Malformed,
    /// A message.
    Message(SidecarMessage),
}

impl View for LineOutcome {
    type V = LineOutcomeView;

    open spec fn view(&self) -> LineOutcomeView {
        match self {
            LineOutcome::Blank => LineOutcomeView::Blank,
            LineOutcome::Oversize => LineOutcomeView::Oversize,
            LineOutcome::Malformed => LineOutcomeView::Malformed,
            LineOutcome::Message(m) => LineOutcomeView::Message(m@),
        }
    }
}

/// The length of a text in bytes, as UTF-8.
pub open spec fn byte_len(text: Seq<char>) -> nat {
    vstd::utf8::encode_utf8(text).len()
}

/// What a parsed line is: the message that its document spells, if there is
/// a document and it spells one.
pub open spec fn parsed_outcome(document: Option<JsonView>) -> LineOutcomeView {
    match document {
        Some(d) => match message_of(d) {
            Some(m) => LineOutcomeView::Message(m),
            None => LineOutcomeView::Malformed,
        },
        None => LineOutcomeView::Malformed,
    }
}

/// What a line is. A blank line is blank whatever its length; a line of more
/// than [`MAX_LINE_BYTES`] bytes is not parsed.
pub open spec fn line_outcome(line: Seq<char>) -> LineOutcomeView {
    if is_blank(line) {
        LineOutcomeView::Blank
    } else if byte_len(line) > MAX_LINE_BYTES {
        LineOutcomeView::Oversize
    } else {
        parsed_outcome(json_document(line))
    }
}

/// Says what the result of parsing a line is.
pub fn classify_document(document: Option<Json>) -> (outcome: LineOutcome)
    ensures
        outcome@ == parsed_outcome(opt_json(document)),
{
    match document {
        Some(d) => match decode_message(&d) {
            Some(m) => LineOutcome::Message(m),
            None => LineOutcome::Malformed,
        },
        None => LineOutcome::Malformed,
    }
}

/// Reads one line of the worker's output, without its line end.
pub fn read_line(line: &str) -> (outcome: LineOutcome)
    ensures
        outcome@ == line_outcome(line@),
{
    if is_blank_line(line) {
        LineOutcome::Blank
    } else if line.as_bytes().len() > MAX_LINE_BYTES {
        LineOutcome::Oversize
    } else {
        classify_document(parse_json(line))
    }
}

/// What a line of the worker's diagnostics is worth: the line itself, unless it is blank.
pub open spec fn diagnostic_for(line: Seq<char>) -> Option<Seq<char>> {
    if is_blank(line) {
        None
    } else {
        Some(line)
    }
}

/// Reads one line of the worker's diagnostics. It is free text: nothing is parsed.
pub fn read_diagnostic(line: &str) -> (entry: Option<String>)
    ensures
        opt_text(entry) == diagnostic_for(line@),
{
    if is_blank_line(line) {
        None
    } else {
        Some(line.to_owned())
    }
}

} // verus!
