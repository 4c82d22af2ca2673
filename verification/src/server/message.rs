//! A message and the reactions to it, one for each user who reacted.

use crate::text::texts;
use vstd::prelude::*;
use vstd::string::*;

verus! {

/// Whether a user of this name stands in `entries`.
pub open spec fn has_name(entries: Seq<(Seq<char>, Seq<char>)>, name: Seq<char>) -> bool {
    exists|i: int| 0 <= i < entries.len() && (#[trigger] entries[i]).0 == name
}

/// Where the user of this name stands in `entries`, if anywhere.
pub open spec fn index_of(entries: Seq<(Seq<char>, Seq<char>)>, name: Seq<char>) -> int {
    choose|i: int| 0 <= i < entries.len() && (#[trigger] entries[i]).0 == name
}

/// Whether no name stands twice in `entries`.
pub open spec fn distinct_names(entries: Seq<(Seq<char>, Seq<char>)>) -> bool {
    forall|i: int, j: int|
        0 <= i < j < entries.len() ==> (#[trigger] entries[i]).0 != (#[trigger] entries[j]).0
}

/// The reactions after the user `name` has reacted with `reaction`: it takes
/// the place of that user's earlier reaction, or comes last where the user
/// had none.
pub open spec fn with_reaction(
    entries: Seq<(Seq<char>, Seq<char>)>,
    name: Seq<char>,
    reaction: Seq<char>,
) -> Seq<(Seq<char>, Seq<char>)> {
    if has_name(entries, name) {
        entries.update(index_of(entries, name), (name, reaction))
    } else {
        entries.push((name, reaction))
    }
}

/// The reaction of the user `name`, if that user has reacted.
pub open spec fn reaction_of(entries: Seq<(Seq<char>, Seq<char>)>, name: Seq<char>) -> Option<
    Seq<char>,
> {
    if has_name(entries, name) {
        Some(entries[index_of(entries, name)].1)
    } else {
        None
    }
}

/// The reactions as a map from each user's name to that user's reaction.
pub open spec fn as_map(entries: Seq<(Seq<char>, Seq<char>)>) -> Map<Seq<char>, Seq<char>> {
    Map::new(
        |name: Seq<char>| has_name(entries, name),
        |name: Seq<char>| entries[index_of(entries, name)].1,
    )
}

/// A name stands at one place only.
pub proof fn lemma_index_of(entries: Seq<(Seq<char>, Seq<char>)>, i: int)
    requires
        distinct_names(entries),
        0 <= i < entries.len(),
    ensures
        has_name(entries, entries[i].0),
        index_of(entries, entries[i].0) == i,
{
    let name = entries[i].0;
    assert(has_name(entries, name));
    let j = index_of(entries, name);
    if j < i {
        assert(entries[j].0 != entries[i].0);
    } else if i < j {
        assert(entries[i].0 != entries[j].0);
    }
}

/// Reacting keeps the names distinct, and does to the map of the reactions
/// what an insertion does: the user's name now leads to the new reaction,
/// and every other name to what it led to before.
pub proof fn lemma_with_reaction(
    entries: Seq<(Seq<char>, Seq<char>)>,
    name: Seq<char>,
    reaction: Seq<char>,
)
    requires
        distinct_names(entries),
    ensures
        distinct_names(with_reaction(entries, name, reaction)),
        as_map(with_reaction(entries, name, reaction)) == as_map(entries).insert(name, reaction),
        with_reaction(entries, name, reaction).len() == entries.len() + (if has_name(
            entries,
            name,
        ) {
            0nat
        } else {
            1nat
        }),
{
    let after = with_reaction(entries, name, reaction);
    if has_name(entries, name) {
        let at = index_of(entries, name);
        assert forall|i: int, j: int| 0 <= i < j < after.len() implies (#[trigger] after[i]).0 != (
        #[trigger] after[j]).0 by {
            assert(entries[i].0 != entries[j].0);
        }
        assert forall|other: Seq<char>| has_name(after, other) == has_name(entries, other) by {
            if has_name(after, other) {
                let i = index_of(after, other);
                assert(entries[i].0 == other);
            }
            if has_name(entries, other) {
                let i = index_of(entries, other);
                assert(after[i].0 == other);
            }
        }
        assert forall|other: Seq<char>| has_name(after, other) implies #[trigger] as_map(
            after,
        )[other] == as_map(entries).insert(name, reaction)[other] by {
            let i = index_of(after, other);
            lemma_index_of(after, i);
            assert(entries[i].0 == other);
            lemma_index_of(entries, i);
        }
        assert(as_map(after) =~= as_map(entries).insert(name, reaction));
    } else {
        let last = entries.len() as int;
        assert forall|i: int, j: int| 0 <= i < j < after.len() implies (#[trigger] after[i]).0 != (
        #[trigger] after[j]).0 by {
            if j == last {
                assert(entries[i].0 != name);
            } else {
                assert(entries[i].0 != entries[j].0);
            }
        }
        assert(after[last].0 == name);
        assert forall|other: Seq<char>|
            has_name(after, other) == (other == name || has_name(entries, other)) by {
            if has_name(after, other) {
                let i = index_of(after, other);
                if i < last {
                    assert(entries[i].0 == other);
                }
            }
            if has_name(entries, other) {
                let i = index_of(entries, other);
                assert(after[i].0 == other);
            }
        }
        assert forall|other: Seq<char>| has_name(after, other) implies #[trigger] as_map(
            after,
        )[other] == as_map(entries).insert(name, reaction)[other] by {
            let i = index_of(after, other);
            lemma_index_of(after, i);
            if i < last {
                assert(entries[i].0 == other);
                lemma_index_of(entries, i);
            }
        }
        assert(as_map(after) =~= as_map(entries).insert(name, reaction));
    }
}

/// The reactions to one message: for each user who reacted, the name and
/// the reaction, in the order in which the users first reacted.
pub struct Reactions {
    entries: Vec<(String, String)>,
}

impl View for Reactions {
    type V = Seq<(Seq<char>, Seq<char>)>;

    closed spec fn view(&self) -> Seq<(Seq<char>, Seq<char>)> {
        self.entries@.map_values(|e: (String, String)| (e.0@, e.1@))
    }
}

impl Reactions {
    #[verifier::type_invariant]
    spec fn one_per_user(self) -> bool {
        distinct_names(self@)
    }

    /// No reactions.
    pub fn new() -> (reactions: Self)
        ensures
            reactions@ == Seq::<(Seq<char>, Seq<char>)>::empty(),
    {
        let reactions = Reactions { entries: Vec::new() };
        assert(reactions@ =~= Seq::empty());
        reactions
    }

    /// The number of users who have reacted.
    pub fn len(&self) -> (n: usize)
        ensures
            n == self@.len(),
            distinct_names(self@),
    {
        proof {
            use_type_invariant(self);
        }
        self.entries.len()
    }

    /// Whether nobody has reacted.
    pub fn is_empty(&self) -> (empty: bool)
        ensures
            empty == (self@.len() == 0),
    {
        self.entries.len() == 0
    }

    fn position(&self, username: &str) -> (at: Option<usize>)
        ensures
            distinct_names(self@),
            match at {
                Some(i) => i < self@.len() && has_name(self@, username@) && index_of(
                    self@,
                    username@,
                ) == i,
                None => !has_name(self@, username@),
            },
    {
        proof {
            use_type_invariant(self);
        }
        let name = String::from_str(username);
        let mut i: usize = 0;
        while i < self.entries.len()
            invariant
                name@ == username@,
                distinct_names(self@),
                i <= self.entries@.len(),
                self@.len() == self.entries@.len(),
                forall|j: int| 0 <= j < i ==> (#[trigger] self@[j]).0 != username@,
            decreases self.entries@.len() - i,
        {
            if self.entries[i].0 == name {
                proof {
                    lemma_index_of(self@, i as int);
                }
                return Some(i);
            }
            i += 1;
        }
        None
    }

    /// Records that the user `username` reacted with `reaction`: in place
    /// of that user's earlier reaction, or after all others where the user
    /// had none.
    pub fn insert(&mut self, username: String, reaction: String)
        ensures
            final(self)@ == with_reaction(old(self)@, username@, reaction@),
            distinct_names(final(self)@),
    {
        let at = self.position(username.as_str());
        // The entries are taken out while they change and put back with
        // their names distinct.
        let mut entries: Vec<(String, String)> = Vec::new();
        std::mem::swap(&mut self.entries, &mut entries);
        proof {
            lemma_with_reaction(old(self)@, username@, reaction@);
        }
        match at {
            Some(i) => {
                entries[i] = (username, reaction);
            },
            None => {
                entries.push((username, reaction));
            },
        }
        assert(entries@.map_values(|e: (String, String)| (e.0@, e.1@)) =~= with_reaction(
            old(self)@,
            username@,
            reaction@,
        ));
        std::mem::swap(&mut self.entries, &mut entries);
    }

    /// The names and the reactions, in the order in which the users first
    /// reacted.
    pub fn entries(&self) -> (list: Vec<(String, String)>)
        ensures
            list@.map_values(|e: (String, String)| (e.0@, e.1@)) == self@,
    {
        let mut list: Vec<(String, String)> = Vec::new();
        let mut i: usize = 0;
        while i < self.entries.len()
            invariant
                i <= self.entries@.len(),
                list@.len() == i,
                forall|j: int|
                    0 <= j < i ==> (#[trigger] list@[j]).0@ == self.entries@[j].0@ && list@[j].1@
                        == self.entries@[j].1@,
            decreases self.entries@.len() - i,
        {
            let entry = &self.entries[i];
            list.push((entry.0.clone(), entry.1.clone()));
            i += 1;
        }
        assert(list@.map_values(|e: (String, String)| (e.0@, e.1@)) =~= self@);
        list
    }

    /// The reaction of the user `username`, if that user has reacted.
    pub fn get(&self, username: &str) -> (reaction: Option<&String>)
        ensures
            match reaction {
                Some(r) => reaction_of(self@, username@) == Some(r@),
                None => reaction_of(self@, username@) is None,
            },
    {
        match self.position(username) {
            Some(i) => Some(&self.entries[i].1),
            None => None,
        }
    }
}

/// The heading of the list of the reactions to a message.
pub open spec fn reactions_heading(content: Seq<char>) -> Seq<char> {
    "Reactions for message: '"@ + content + "'"@
}

/// The line for one user's reaction.
pub open spec fn reaction_line(name: Seq<char>, reaction: Seq<char>) -> Seq<char> {
    " "@ + name + " reacted with "@ + reaction
}

/// The list of the reactions to a message: the heading, then one line for
/// each user who reacted.
pub open spec fn reaction_lines(content: Seq<char>, entries: Seq<(Seq<char>, Seq<char>)>) -> Seq<
    Seq<char>,
> {
    seq![reactions_heading(content)] + entries.map_values(
        |e: (Seq<char>, Seq<char>)| reaction_line(e.0, e.1),
    )
}

/// What can be read, reacted to, and shown with its reactions.
pub trait Message {
    /// The text.
    spec fn content_view(&self) -> Seq<char>;

    /// The reactions: each user's name and reaction, in the order in which
    /// the users first reacted.
    spec fn reactions_view(&self) -> Seq<(Seq<char>, Seq<char>)>;

    /// The text.
    fn get_content(&self) -> (content: &str)
        ensures
            content@ == self.content_view(),
    ;

    /// Records the reaction of the user `username`; an earlier reaction of
    /// that user gives way to it.
    fn react(&mut self, username: &str, reaction: &str)
        ensures
            final(self).content_view() == old(self).content_view(),
            final(self).reactions_view() == with_reaction(
                old(self).reactions_view(),
                username@,
                reaction@,
            ),
    ;

    /// The lines that show the reactions.
    fn show_reactions(&self) -> (lines: Vec<String>)
        ensures
            texts(lines@) == reaction_lines(self.content_view(), self.reactions_view()),
    ;
}

/// A message of a chat, with the reactions to it.
pub struct ChatMessage {
    content: String,
    pub reactions: Reactions,
}

impl ChatMessage {
    /// A message with this text and no reaction.
    pub fn new(content: &str) -> (message: Self)
        ensures
            message.content_view() == content@,
            message.reactions_view() == Seq::<(Seq<char>, Seq<char>)>::empty(),
    {
        Self { content: content.to_owned(), reactions: Reactions::new() }
    }

    /// Whether anybody has reacted.
    pub fn has_reactions(&self) -> (reacted: bool)
        ensures
            reacted == (self.reactions_view().len() > 0),
    {
        !self.reactions.is_empty()
    }
}

impl Message for ChatMessage {
    closed spec fn content_view(&self) -> Seq<char> {
        self.content@
    }

    closed spec fn reactions_view(&self) -> Seq<(Seq<char>, Seq<char>)> {
        self.reactions@
    }

    fn get_content(&self) -> (content: &str) {
        self.content.as_str()
    }

    fn react(&mut self, username: &str, reaction: &str) {
        self.reactions.insert(username.to_owned(), reaction.to_owned());
    }

    fn show_reactions(&self) -> (lines: Vec<String>) {
        let mut lines: Vec<String> = Vec::new();
        let mut heading = String::from_str("Reactions for message: '");
        heading.append(self.content.as_str());
        heading.append("'");
        lines.push(heading);
        let entries = self.reactions.entries();
        let mut i: usize = 0;
        while i < entries.len()
            invariant
                i <= entries@.len(),
                entries@.map_values(|e: (String, String)| (e.0@, e.1@)) == self.reactions@,
                lines@.len() == i + 1,
                lines@[0]@ == reactions_heading(self.content@),
                entries@.len() == self.reactions@.len(),
                forall|k: int|
                    1 <= k <= i ==> (#[trigger] lines@[k])@ == reaction_line(
                        self.reactions@[k - 1].0,
                        self.reactions@[k - 1].1,
                    ),
            decreases entries@.len() - i,
        {
            let entry = &entries[i];
            assert(self.reactions@[i as int] == (entry.0@, entry.1@));
            let mut line = String::from_str(" ");
            line.append(entry.0.as_str());
            line.append(" reacted with ");
            line.append(entry.1.as_str());
            lines.push(line);
            i += 1;
        }
        assert(texts(lines@) =~= reaction_lines(self.content_view(), self.reactions_view()));
        lines
    }
}

} // verus!
