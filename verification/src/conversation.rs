//! The conversation store: an ordered, append-only log of role-tagged
//! entries that is replayed to the language model on every turn.

use vstd::prelude::*;
use vstd::string::*;

verus! {

/// Who wrote an entry of the conversation.
#[derive(Clone, Copy, Debug, PartialEq, Eq, Structural)]
pub enum Role {
    System,
    User,
    Assistant,
}

/// The name of a role as the language model is told it.
pub open spec fn role_text(role: Role) -> Seq<char> {
    match role {
        Role::System => "system"@,
        Role::User => "user"@,
        Role::Assistant => "assistant"@,
    }
}

/// The name under which a role is sent to the language model.
pub fn role_name(role: Role) -> (name: &'static str)
    ensures
        name@ == role_text(role),
{
    match role {
        Role::System => "system",
        Role::User => "user",
        Role::Assistant => "assistant",
    }
}

/// One role-tagged message of the conversation.
#[derive(Clone, Debug, PartialEq, Eq)]
pub struct ConversationEntry {
    pub role: Role,
    pub content: String,
}

/// An entry as a mathematical value: its role and its characters.
pub type EntryView = (Role, Seq<char>);

impl View for ConversationEntry {
    type V = EntryView;

    open spec fn view(&self) -> EntryView {
        (self.role, self.content@)
    }
}

/// The entries of a vector, each by its view, in order.
pub open spec fn entries_view(entries: Seq<ConversationEntry>) -> Seq<EntryView> {
    Seq::new(entries.len(), |i: int| entries[i]@)
}

/// The instructions that open every conversation.
pub open spec fn system_prompt() -> Seq<char> {
    "You are a helpful AI for a smart mirror. Possible commands:\n- \"get_events\": parameters={} => will return the next week of events to you(use if user asks for events)\n- \"play_song\": parameters={\"song\":\"...\"} => aggregator will embed a YT link\n- \"add_event\": parameters={\"event_name\":\"...\",\"date\":\"yyyy-mm-dd\",} => aggregator calls Google Calendar\n- \"get_weather\": parameters={\"location\":\"...\"} => aggregator fetches weather\n- \"none\" => no special action\n\nImportant: The next command after get_events or get_weather should be none!\n\nAlways respond in strict JSON: {\"command\":\"...\",\"parameters\":{...},\"text\":\"...\"}\nYour output is given to a text to speech so please write it in a voice-friendly manner.\nThe text section is the only sections that is given to text_to_speech"@
}

/// The prefix of the notice that tells the model today's date.
pub open spec fn date_notice_prefix() -> Seq<char> {
    "Current Date:"@
}

/// The entry that `to_json_message` builds: the message `sys` stands for the
/// system prompt, written by the system whatever role was asked for; every
/// other message is kept as it is under the given role.
pub open spec fn message_entry(role: Role, message: Seq<char>) -> EntryView {
    if message == "sys"@ {
        (Role::System, system_prompt())
    } else {
        (role, message)
    }
}

/// Builds one entry of the conversation from a role and a message.
pub fn to_json_message(role: Role, message: &str) -> (entry: ConversationEntry)
    ensures
        entry@ == message_entry(role, message@),
{
    let text = String::from_str(message);
    let marker = String::from_str("sys");
    if text == marker {
        ConversationEntry {
            role: Role::System,
            content: String::from_str(
                "You are a helpful AI for a smart mirror. Possible commands:\n- \"get_events\": parameters={} => will return the next week of events to you(use if user asks for events)\n- \"play_song\": parameters={\"song\":\"...\"} => aggregator will embed a YT link\n- \"add_event\": parameters={\"event_name\":\"...\",\"date\":\"yyyy-mm-dd\",} => aggregator calls Google Calendar\n- \"get_weather\": parameters={\"location\":\"...\"} => aggregator fetches weather\n- \"none\" => no special action\n\nImportant: The next command after get_events or get_weather should be none!\n\nAlways respond in strict JSON: {\"command\":\"...\",\"parameters\":{...},\"text\":\"...\"}\nYour output is given to a text to speech so please write it in a voice-friendly manner.\nThe text section is the only sections that is given to text_to_speech",
            ),
        }
    } else {
        ConversationEntry { role, content: text }
    }
}

/// The conversation store. Entries are only ever appended: no entry is
/// changed, removed or reordered once it is in.
pub struct Conversation {
    entries: Vec<ConversationEntry>,
}

impl View for Conversation {
    type V = Seq<EntryView>;

    closed spec fn view(&self) -> Seq<EntryView> {
        entries_view(self.entries@)
    }
}

/// The two entries that a conversation starts with.
pub open spec fn seed_entries(date: Seq<char>) -> Seq<EntryView> {
    seq![(Role::System, system_prompt()), (Role::System, date_notice_prefix() + date)]
}

impl Conversation {
    /// A store without entries.
    pub fn new() -> (store: Conversation)
        ensures
            store@ == Seq::<EntryView>::empty(),
    {
        let store = Conversation { entries: Vec::new() };
        assert(store@ =~= Seq::<EntryView>::empty());
        store
    }

    /// A store as it stands when the assistant starts: the system prompt,
    /// then a notice of the current date, which the caller supplies as text.
    pub fn seeded(date: &str) -> (store: Conversation)
        ensures
            store@ == seed_entries(date@),
    {
        let mut store = Conversation::new();
        store.append(to_json_message(Role::System, "sys"));
        let mut notice = String::from_str("Current Date:");
        notice.append(date);
        store.append(ConversationEntry { role: Role::System, content: notice });
        assert(store@ =~= seed_entries(date@));
        store
    }

    /// The number of entries.
    pub fn len(&self) -> (n: usize)
        ensures
            n == self@.len(),
    {
        self.entries.len()
    }

    /// Adds one entry at the end and leaves every earlier entry untouched.
    pub fn append(&mut self, entry: ConversationEntry)
        ensures
            final(self)@ == old(self)@.push(entry@),
    {
        self.entries.push(entry);
        assert(self@ =~= old(self)@.push(entry@));
    }

    /// An ordered copy of all entries, as they stand at the time of the call.
    pub fn snapshot(&self) -> (copy: Vec<ConversationEntry>)
        ensures
            entries_view(copy@) == self@,
    {
        let mut copy: Vec<ConversationEntry> = Vec::new();
        let n: usize = self.entries.len();
        let mut i: usize = 0;
        while i < n
            invariant
                n == self.entries@.len(),
                i <= n,
                copy@ == self.entries@.take(i as int),
            decreases n - i,
        {
            let entry = &self.entries[i];
            copy.push(ConversationEntry { role: entry.role, content: entry.content.clone() });
            assert(copy@ =~= self.entries@.take(i + 1));
            i = i + 1;
        }
        assert(copy@ =~= self.entries@);
        copy
    }
}

} // verus!
