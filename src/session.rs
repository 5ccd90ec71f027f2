//! The session state and the controller: how inbound frames and local actions
//! change the roster, the history, the theme and the input, and which
//! envelopes go out.
use vstd::prelude::*;

use crate::envelope::{
    is_image_body, kind_of, strings_view, message_tag, register_tag, DecodeError, Envelope, EnvelopeView, MessageData,
    MsgTypes,
};
use crate::text::{trim_text, trimmed};

verus! {

/// A participant as shown in the roster.
pub struct UserProfile {
    pub name: String,
    pub avatar: String,
}

impl View for UserProfile {
    type V = (Seq<char>, Seq<char>);

    open spec fn view(&self) -> (Seq<char>, Seq<char>) {
        (self.name@, self.avatar@)
    }
}

/// The avatar address derived from a username.
pub open spec fn avatar_of(name: Seq<char>) -> Seq<char> {
    "https://avatars.dicebear.com/api/adventurer-neutral/"@ + name + ".svg"@
}

/// The roster built from a list of names, one profile per name, in order.
pub open spec fn profiles_of(names: Seq<Seq<char>>) -> Seq<(Seq<char>, Seq<char>)> {
    names.map_values(|n: Seq<char>| (n, avatar_of(n)))
}

pub fn avatar_url(name: &str) -> (r: String)
    ensures
        r@ == avatar_of(name@),
{
    let mut r = String::from_str("https://avatars.dicebear.com/api/adventurer-neutral/");
    r.append(name);
    r.append(".svg");
    r
}

impl UserProfile {
    pub fn from_name(name: &str) -> (r: UserProfile)
        ensures
            r@ == (name@, avatar_of(name@)),
    {
        UserProfile { name: String::from_str(name), avatar: avatar_url(name) }
    }
}

/// The observable state of a session.
#[verifier::ext_equal]
pub struct ChatState {
    pub username: Seq<char>,
    pub roster: Seq<(Seq<char>, Seq<char>)>,
    pub history: Seq<(Seq<char>, Seq<char>)>,
    pub dark_mode: bool,
    pub input: Seq<char>,
}

/// An inbound frame as decoded: the envelope, and the chat message decoded
/// from its `data` text.
pub struct Frame {
    pub envelope: Result<Envelope, DecodeError>,
    pub payload: Result<MessageData, DecodeError>,
}

pub struct FrameView {
    pub envelope: Option<EnvelopeView>,
    pub payload: Option<(Seq<char>, Seq<char>)>,
}

impl View for Frame {
    type V = FrameView;

    open spec fn view(&self) -> FrameView {
        FrameView {
            envelope: match self.envelope {
                Ok(e) => Some(e@),
                Err(_) => None,
            },
            payload: match self.payload {
                Ok(m) => Some(m@),
                Err(_) => None,
            },
        }
    }
}

/// The events a session reacts to.
pub enum Msg {
    HandleMsg(Frame),
    SubmitMessage,
    ToggleTheme,
}

pub open spec fn names_or_empty(items: Option<Seq<Seq<char>>>) -> Seq<Seq<char>> {
    match items {
        Some(s) => s,
        None => Seq::empty(),
    }
}

/// Whether a frame carries a roster.
pub open spec fn is_users_frame(f: FrameView) -> bool {
    f.envelope matches Some(e) && kind_of(e.kind) == Some(MsgTypes::Users)
}

/// Whether a frame carries a chat message that decoded.
pub open spec fn is_message_frame(f: FrameView) -> bool {
    f.envelope matches Some(e) && kind_of(e.kind) == Some(MsgTypes::Message) && e.data is Some
        && f.payload is Some
}

/// The state after an inbound frame: a roster replaces the roster whole, a
/// chat message goes to the end of the history, anything else changes nothing.
pub open spec fn apply_frame(s: ChatState, f: FrameView) -> ChatState {
    if is_users_frame(f) {
        ChatState { roster: profiles_of(names_or_empty(f.envelope->0.items)), ..s }
    } else if is_message_frame(f) {
        ChatState { history: s.history.push(f.payload->0), ..s }
    } else {
        s
    }
}

/// The state after a sequence of inbound frames, in arrival order.
pub open spec fn apply_frames(s: ChatState, fs: Seq<FrameView>) -> ChatState
    decreases fs.len(),
{
    if fs.len() == 0 {
        s
    } else {
        apply_frame(apply_frames(s, fs.drop_last()), fs.last())
    }
}

pub open spec fn toggled(s: ChatState) -> ChatState {
    ChatState { dark_mode: !s.dark_mode, ..s }
}

/// The state after a send request: a non-empty input is cleared.
pub open spec fn after_submit(s: ChatState) -> ChatState {
    if s.input.len() == 0 {
        s
    } else {
        ChatState { input: Seq::empty(), ..s }
    }
}

/// The envelope that carries a message body.
pub open spec fn message_envelope(body: Seq<char>) -> EnvelopeView {
    EnvelopeView { kind: message_tag(), items: None, data: Some(body) }
}

pub open spec fn initial_state(username: Seq<char>) -> ChatState {
    ChatState {
        username,
        roster: Seq::empty(),
        history: Seq::empty(),
        dark_mode: false,
        input: Seq::empty(),
    }
}

/// The avatar of the first roster entry with the given name; empty if none.
pub open spec fn avatar_in(roster: Seq<(Seq<char>, Seq<char>)>, name: Seq<char>) -> Seq<char>
    decreases roster.len(),
{
    if roster.len() == 0 {
        Seq::empty()
    } else if roster[0].0 == name {
        roster[0].1
    } else {
        avatar_in(roster.drop_first(), name)
    }
}

/// One chat session: the registered identity, the roster, the history, the
/// theme flag and the text being typed.
pub struct Chat {
    users: Vec<UserProfile>,
    messages: Vec<MessageData>,
    dark_mode: bool,
    username: String,
    input: String,
}

impl View for Chat {
    type V = ChatState;

    closed spec fn view(&self) -> ChatState {
        ChatState {
            username: self.username@,
            roster: self.users@.map_values(|u: UserProfile| u@),
            history: self.messages@.map_values(|m: MessageData| m@),
            dark_mode: self.dark_mode,
            input: self.input@,
        }
    }
}

/// The envelope for a trimmed input: none for an empty text, else the
/// `message` envelope that carries it.
pub fn outbound_message(text: String) -> (r: Option<Envelope>)
    ensures
        r is Some <==> text@.len() > 0,
        r matches Some(e) ==> e@ == message_envelope(text@),
{
    if text.as_str().unicode_len() == 0 {
        None
    } else {
        Some(Envelope::message(text))
    }
}

/// The roster built from a list of names.
fn profiles_from(names: &Vec<String>) -> (r: Vec<UserProfile>)
    ensures
        r@.map_values(|u: UserProfile| u@) == profiles_of(strings_view(*names)),
{
    let mut users: Vec<UserProfile> = Vec::new();
    let mut i: usize = 0;
    while i < names.len()
        invariant
            i <= names.len(),
            users@.len() == i,
            forall|j: int|
                0 <= j < i ==> #[trigger] users@[j]@ == (names@[j]@, avatar_of(names@[j]@)),
        decreases names.len() - i,
    {
        users.push(UserProfile::from_name(names[i].as_str()));
        i = i + 1;
    }
    assert(users@.map_values(|u: UserProfile| u@) =~= profiles_of(strings_view(*names)));
    users
}

impl Chat {
    /// Opens a session for `username` and gives the registration envelope to
    /// send on the connection.
    pub fn create(username: String) -> (r: (Chat, Envelope))
        ensures
            r.0@ == initial_state(username@),
            r.1@ == (EnvelopeView { kind: register_tag(), items: None, data: Some(username@) }),
    {
        let chat = Chat {
            users: Vec::new(),
            messages: Vec::new(),
            dark_mode: false,
            username: username.clone(),
            input: String::new(),
        };
        assert(chat@ =~= initial_state(username@));
        (chat, Envelope::register(username))
    }

    /// Applies an inbound frame; says whether the state changed.
    pub fn handle_frame(&mut self, frame: Frame) -> (r: bool)
        ensures
            final(self)@ == apply_frame(old(self)@, frame@),
            r == (is_users_frame(frame@) || is_message_frame(frame@)),
    {
        let ghost f = frame@;
        let Frame { envelope, payload } = frame;
        match envelope {
            Ok(env) => match env.kind() {
                Some(MsgTypes::Users) => {
                    let users = match &env.data_array {
                        Some(l) => profiles_from(l),
                        None => Vec::new(),
                    };
                    self.users = users;
                    assert(final(self)@ =~= apply_frame(old(self)@, f));
                    true
                },
                Some(MsgTypes::Message) => {
                    if env.data.is_none() {
                        return false;
                    }
                    match payload {
                        Ok(m) => {
                            self.messages.push(m);
                            assert(final(self)@ =~= apply_frame(old(self)@, f));
                            true
                        },
                        Err(_) => false,
                    }
                },
                _ => false,
            },
            Err(_) => false,
        }
    }

    /// Sends the typed text: clears a non-empty input, and gives the `message`
    /// envelope that carries the trimmed text where that is not empty.
    pub fn submit_message(&mut self) -> (r: Option<Envelope>)
        ensures
            final(self)@ == after_submit(old(self)@),
            r is Some <==> trimmed(old(self)@.input).len() > 0,
            r matches Some(e) ==> e@ == message_envelope(trimmed(old(self)@.input)),
            old(self)@.input.len() == 0 ==> r is None && final(self)@ == old(self)@,
    {
        let text = trim_text(self.input.as_str());
        let r = outbound_message(text);
        if self.input.unicode_len() > 0 {
            self.input = String::new();
        }
        assert(final(self)@ =~= after_submit(old(self)@));
        r
    }

    /// Flips the theme flag.
    pub fn toggle_theme(&mut self)
        ensures
            final(self)@ == toggled(old(self)@),
    {
        self.dark_mode = !self.dark_mode;
        assert(final(self)@ =~= toggled(old(self)@));
    }

    /// Reacts to an event; says whether the state changed, and gives the
    /// envelope to send, if any.
    pub fn update(&mut self, msg: Msg) -> (r: (bool, Option<Envelope>))
        ensures
            match msg {
                Msg::HandleMsg(f) => {
                    &&& final(self)@ == apply_frame(old(self)@, f@)
                    &&& r.0 == (is_users_frame(f@) || is_message_frame(f@))
                    &&& r.1 is None
                },
                Msg::SubmitMessage => {
                    &&& final(self)@ == after_submit(old(self)@)
                    &&& !r.0
                    &&& (r.1 is Some <==> trimmed(old(self)@.input).len() > 0)
                    &&& (r.1 matches Some(e) ==> e@ == message_envelope(
                        trimmed(old(self)@.input),
                    ))
                    &&& (old(self)@.input.len() == 0 ==> r.1 is None)
                },
                Msg::ToggleTheme => {
                    &&& final(self)@ == toggled(old(self)@)
                    &&& r.0
                    &&& r.1 is None
                },
            },
    {
        match msg {
            Msg::HandleMsg(f) => (self.handle_frame(f), None),
            Msg::SubmitMessage => (false, self.submit_message()),
            Msg::ToggleTheme => {
                self.toggle_theme();
                (true, None)
            },
        }
    }

    /// Whether a message was sent under this session's own username.
    pub fn is_me(&self, m: &MessageData) -> (r: bool)
        ensures
            r == (m.from@ == self@.username),
    {
        m.from.eq(&self.username)
    }

    /// The avatar of the first roster entry named `from`; empty if nobody of
    /// that name is in the roster.
    pub fn avatar_for(&self, from: &str) -> (r: String)
        ensures
            r@ == avatar_in(self@.roster, from@),
    {
        let ghost roster = self@.roster;
        let mut i: usize = 0;
        assert(roster.subrange(0, roster.len() as int) =~= roster);
        while i < self.users.len()
            invariant
                i <= self.users@.len(),
                roster == self@.roster,
                roster.len() == self.users@.len(),
                avatar_in(roster, from@) == avatar_in(
                    roster.subrange(i as int, roster.len() as int),
                    from@,
                ),
            decreases self.users.len() - i,
        {
            let ghost rest = roster.subrange(i as int, roster.len() as int);
            assert(rest[0] == self.users@[i as int]@);
            if String::from_str(from).eq(&self.users[i].name) {
                return self.users[i].avatar.clone();
            }
            assert(rest.drop_first() =~= roster.subrange(i + 1, roster.len() as int));
            i = i + 1;
        }
        String::new()
    }

    /// Whether the message at `i` in the history is shown as an image.
    pub fn message_is_image(&self, i: usize) -> (r: bool)
        requires
            i < self@.history.len(),
        ensures
            r == is_image_body(self@.history[i as int].1),
    {
        self.messages[i].is_image()
    }

    pub fn username(&self) -> (r: &String)
        ensures
            r@ == self@.username,
    {
        &self.username
    }

    pub fn users(&self) -> (r: &Vec<UserProfile>)
        ensures
            r@.map_values(|u: UserProfile| u@) == self@.roster,
    {
        &self.users
    }

    pub fn messages(&self) -> (r: &Vec<MessageData>)
        ensures
            r@.map_values(|m: MessageData| m@) == self@.history,
    {
        &self.messages
    }

    pub fn dark_mode(&self) -> (r: bool)
        ensures
            r == self@.dark_mode,
    {
        self.dark_mode
    }

    pub fn input(&self) -> (r: &String)
        ensures
            r@ == self@.input,
    {
        &self.input
    }

    /// Replaces the text being typed.
    pub fn set_input(&mut self, text: String)
        ensures
            final(self)@ == (ChatState { input: text@, ..old(self)@ }),
    {
        self.input = text;
        assert(final(self)@ =~= (ChatState { input: text@, ..old(self)@ }));
    }
}

/// After each roster envelope of a run of roster envelopes, the roster is
/// exactly the list that envelope carried, whatever came before it.
pub proof fn lemma_roster_follows_last_users(s: ChatState, fs: Seq<FrameView>, n: int)
    requires
        forall|i: int| 0 <= i < fs.len() ==> is_users_frame(#[trigger] fs[i]),
        1 <= n <= fs.len(),
    ensures
        apply_frames(s, fs.take(n)).roster == profiles_of(
            names_or_empty(fs[n - 1].envelope->0.items),
        ),
{
    assert(fs.take(n).drop_last() =~= fs.take(n - 1));
    assert(fs.take(n).last() == fs[n - 1]);
}

/// Chat messages join the history in arrival order, one entry each, after
/// what was there.
pub proof fn lemma_history_in_arrival_order(s: ChatState, fs: Seq<FrameView>)
    requires
        forall|i: int| 0 <= i < fs.len() ==> is_message_frame(#[trigger] fs[i]),
    ensures
        apply_frames(s, fs).history == s.history + fs.map_values(
            |f: FrameView| f.payload->0,
        ),
        apply_frames(s, fs).roster == s.roster,
    decreases fs.len(),
{
    if fs.len() > 0 {
        let init = fs.drop_last();
        assert forall|i: int| 0 <= i < init.len() implies is_message_frame(#[trigger] init[i]) by {
            assert(init[i] == fs[i]);
        }
        lemma_history_in_arrival_order(s, init);
        assert(is_message_frame(fs[fs.len() - 1]));
        assert(s.history + fs.map_values(|f: FrameView| f.payload->0) =~= (s.history
            + init.map_values(|f: FrameView| f.payload->0)).push(fs.last().payload->0));
    }
}

/// A `message` envelope whose chat message did not decode changes nothing,
/// and the frame after it is applied as if it had not come.
pub proof fn lemma_malformed_payload_ignored(s: ChatState, bad: FrameView, next: FrameView)
    requires
        bad.envelope matches Some(e) && kind_of(e.kind) == Some(MsgTypes::Message),
        bad.payload is None,
    ensures
        apply_frame(s, bad) == s,
        apply_frames(s, seq![bad, next]) == apply_frame(s, next),
{
    let two = seq![bad, next];
    let one = seq![bad];
    assert(two.drop_last() =~= one);
    assert(one.drop_last() =~= Seq::<FrameView>::empty());
    assert(apply_frames(s, Seq::<FrameView>::empty()) == s);
    assert(apply_frames(s, one) == apply_frame(s, bad));
    assert(apply_frames(s, two) == apply_frame(apply_frames(s, one), next));
}

/// An envelope of a kind this client does not know changes nothing.
pub proof fn lemma_unknown_kind_ignored(s: ChatState, f: FrameView)
    requires
        f.envelope matches Some(e) && kind_of(e.kind) is None,
    ensures
        apply_frame(s, f) == s,
{
}

/// Toggling the theme flips the flag; toggling twice restores the state.
pub proof fn lemma_double_toggle(s: ChatState)
    ensures
        toggled(s).dark_mode == !s.dark_mode,
        toggled(toggled(s)) == s,
{
    assert(toggled(toggled(s)) =~= s);
}

} // verus!
