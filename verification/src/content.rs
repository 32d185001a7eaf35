//! What tools answer: pieces of content, and the content that is set aside
//! while a script runs.

use crate::json::{JsonValue, JsonView};
use crate::text::{decimal, decimal_injective, decimal_text, same_text};
use vstd::prelude::*;

verus! {

/// Whom a piece of content is meant for.
#[derive(Debug, Clone, Copy, PartialEq, Eq, Structural)]
pub enum Role {
    User,
    Assistant,
}

/// A piece of content: a text, or anything else (an image, a resource), which
/// is carried as it is.
#[derive(Debug, PartialEq)]
pub enum Content {
    Text { text: String, audience: Option<Vec<Role>> },
    Rich { body: JsonValue },
}

pub enum ContentView {
    Text(Seq<char>, Option<Seq<Role>>),
    Rich(JsonView),
}

impl View for Content {
    type V = ContentView;

    open spec fn view(&self) -> ContentView {
        match *self {
            Content::Text { text, audience } => ContentView::Text(
                text@,
                match audience {
                    Some(roles) => Some(roles@),
                    None => None,
                },
            ),
            Content::Rich { body } => ContentView::Rich(body@),
        }
    }
}

/// What each piece of content is.
pub open spec fn content_views(contents: Seq<Content>) -> Seq<ContentView> {
    contents.map_values(|c: Content| c@)
}

/// A text that is meant for everyone.
pub open spec fn plain_text(text: Seq<char>) -> ContentView {
    ContentView::Text(text, None)
}

impl Content {
    /// A text that is meant for everyone.
    pub fn text(text: String) -> (r: Content)
        ensures
            r@ == plain_text(text@),
    {
        Content::Text { text, audience: None }
    }

    /// The same content once more.
    pub fn copy(&self) -> (r: Content)
        ensures
            r@ == self@,
    {
        match self {
            Content::Text { text, audience } => {
                let audience = match audience {
                    Some(roles) => {
                        let mut copied: Vec<Role> = Vec::new();
                        for i in 0..roles.len()
                            invariant
                                copied@ == roles@.take(i as int),
                        {
                            copied.push(roles[i]);
                        }
                        assert(roles@.take(roles@.len() as int) == roles@);
                        Some(copied)
                    },
                    None => None,
                };
                Content::Text { text: text.clone(), audience }
            },
            Content::Rich { body } => Content::Rich { body: body.copy() },
        }
    }
}

/// Appends copies of the pieces.
pub fn extend_contents(target: &mut Vec<Content>, more: &Vec<Content>)
    ensures
        content_views(final(target)@) == content_views(old(target)@) + content_views(more@),
{
    let ghost before = content_views(target@);
    assert(before == before + content_views(more@).take(0));
    for i in 0..more.len()
        invariant
            content_views(target@) == before + content_views(more@).take(i as int),
    {
        let ghost held = target@;
        let piece = more[i].copy();
        target.push(piece);
        assert(content_views(target@) == content_views(held).push(piece@));
        assert(content_views(more@).take(i + 1) == content_views(more@).take(i as int).push(piece@));
    }
    assert(content_views(more@).take(more@.len() as int) == content_views(more@));
}

// ---------------------------------------------------------------------------
// Content set aside
// ---------------------------------------------------------------------------

/// The contents that the entries hold, by token.
spec fn table(entries: Seq<(String, Vec<Content>)>) -> Map<Seq<char>, Seq<ContentView>>
    decreases entries.len(),
{
    if entries.len() == 0 {
        Map::empty()
    } else {
        table(entries.drop_last()).insert(entries.last().0@, content_views(entries.last().1@))
    }
}

spec fn tokens_differ(entries: Seq<(String, Vec<Content>)>) -> bool {
    forall|i: int, j: int|
        0 <= i < j < entries.len() ==> (#[trigger] entries[i]).0@ != (#[trigger] entries[j]).0@
}

proof fn table_without(entries: Seq<(String, Vec<Content>)>, token: Seq<char>)
    requires
        forall|i: int| 0 <= i < entries.len() ==> (#[trigger] entries[i]).0@ != token,
    ensures
        !table(entries).contains_key(token),
    decreases entries.len(),
{
    if entries.len() > 0 {
        let front = entries.drop_last();
        assert forall|i: int| 0 <= i < front.len() implies (#[trigger] front[i]).0@ != token by {
            assert(front[i] == entries[i]);
        }
        table_without(front, token);
        assert(entries[entries.len() - 1].0@ != token);
    }
}

proof fn table_at(entries: Seq<(String, Vec<Content>)>, at: int)
    requires
        tokens_differ(entries),
        0 <= at < entries.len(),
    ensures
        table(entries).contains_key(entries[at].0@),
        table(entries)[entries[at].0@] == content_views(entries[at].1@),
    decreases entries.len(),
{
    if at < entries.len() - 1 {
        assert(tokens_differ(entries.drop_last())) by {
            assert(entries.drop_last() == entries.take(entries.len() - 1));
        }
        table_at(entries.drop_last(), at);
        assert(entries[at].0@ != entries[entries.len() - 1].0@);
    }
}

proof fn table_after_update(
    entries: Seq<(String, Vec<Content>)>,
    at: int,
    entry: (String, Vec<Content>),
)
    requires
        tokens_differ(entries),
        0 <= at < entries.len(),
        entry.0@ == entries[at].0@,
    ensures
        table(entries.update(at, entry)) == table(entries).insert(
            entry.0@,
            content_views(entry.1@),
        ),
    decreases entries.len(),
{
    let front = entries.drop_last();
    let updated = entries.update(at, entry);
    if at == entries.len() - 1 {
        assert(updated.drop_last() == front);
    } else {
        assert(tokens_differ(front)) by {
            assert(front == entries.take(entries.len() - 1));
        }
        table_after_update(front, at, entry);
        assert(updated.drop_last() == front.update(at, entry));
        assert(entries[at].0@ != entries[entries.len() - 1].0@);
    }
    assert(table(updated) =~= table(entries).insert(entry.0@, content_views(entry.1@)));
}

/// Content captured while a script runs, by the token that stands for it.
#[derive(Debug)]
pub struct ContentStore {
    entries: Vec<(String, Vec<Content>)>,
}

impl ContentStore {
    /// The contents by token.
    pub closed spec fn model(self) -> Map<Seq<char>, Seq<ContentView>> {
        table(self.entries@)
    }

    #[verifier::type_invariant]
    spec fn well_formed(self) -> bool {
        tokens_differ(self.entries@)
    }
}

impl View for ContentStore {
    type V = Map<Seq<char>, Seq<ContentView>>;

    open spec fn view(&self) -> Map<Seq<char>, Seq<ContentView>> {
        self.model()
    }
}

impl ContentStore {
    /// A store without content.
    pub fn new() -> (r: ContentStore)
        ensures
            r@ == Map::<Seq<char>, Seq<ContentView>>::empty(),
    {
        ContentStore { entries: Vec::new() }
    }

    /// The content that a token stands for.
    pub fn get(&self, token: &str) -> (r: Option<&Vec<Content>>)
        ensures
            r is Some <==> self@.contains_key(token@),
            r matches Some(contents) ==> content_views(contents@) == self@[token@],
    {
        proof {
            use_type_invariant(self);
        }
        for i in 0..self.entries.len()
            invariant
                tokens_differ(self.entries@),
                forall|j: int| 0 <= j < i ==> (#[trigger] self.entries@[j]).0@ != token@,
        {
            if same_text(self.entries[i].0.as_str(), token) {
                proof {
                    table_at(self.entries@, i as int);
                }
                return Some(&self.entries[i].1);
            }
        }
        proof {
            table_without(self.entries@, token@);
        }
        None
    }

    /// The store with the content that a token stands for set.
    pub fn insert(self, token: String, contents: Vec<Content>) -> (r: ContentStore)
        ensures
            r@ == self@.insert(token@, content_views(contents@)),
    {
        proof {
            use_type_invariant(&self);
        }
        let ContentStore { mut entries } = self;
        let ghost before = entries@;
        let ghost entry = (token, contents);
        let mut at: usize = 0;
        while at < entries.len() && !same_text(entries[at].0.as_str(), token.as_str())
            invariant
                at <= entries@.len(),
                entries@ == before,
                forall|j: int| 0 <= j < at ==> (#[trigger] before[j]).0@ != token@,
            decreases entries@.len() - at,
        {
            at = at + 1;
        }
        if at < entries.len() {
            proof {
                table_after_update(before, at as int, entry);
            }
            entries.set(at, (token, contents));
            assert(tokens_differ(entries@)) by {
                assert forall|i: int, j: int| 0 <= i < j < entries@.len() implies (
                #[trigger] entries@[i]).0@ != (#[trigger] entries@[j]).0@ by {
                    assert(before[i].0@ != before[j].0@);
                }
            }
        } else {
            entries.push((token, contents));
            assert(entries@.drop_last() == before);
            assert(tokens_differ(entries@)) by {
                assert forall|i: int, j: int| 0 <= i < j < entries@.len() implies (
                #[trigger] entries@[i]).0@ != (#[trigger] entries@[j]).0@ by {
                    assert(before[i].0@ != token@);
                    if j < before.len() {
                        assert(before[i].0@ != before[j].0@);
                    }
                }
            }
        }
        ContentStore { entries }
    }
}

// ---------------------------------------------------------------------------
// Tokens
// ---------------------------------------------------------------------------

/// The token of a count.
pub open spec fn token(count: nat) -> Seq<char> {
    "cref_"@ + decimal(count)
}

/// Different counts have different tokens.
pub proof fn tokens_are_unique(a: nat, b: nat)
    requires
        a != b,
    ensures
        token(a) != token(b),
{
    if token(a) == token(b) {
        let n = "cref_"@.len() as int;
        assert(token(a).skip(n) == decimal(a));
        assert(token(b).skip(n) == decimal(b));
        decimal_injective(a, b);
    }
}

/// Whether every token of a store was made of a count below the given one.
pub open spec fn counted_below<T>(store: Map<Seq<char>, T>, count: nat) -> bool {
    forall|t: Seq<char>| #[trigger]
        store.contains_key(t) ==> exists|n: nat| n < count && t == #[trigger] token(n)
}

/// A store that was filled by counting up never holds the next token yet, so
/// content that was set aside is not overwritten.
pub proof fn next_token_is_new<T>(store: Map<Seq<char>, T>, count: nat, contents: T)
    requires
        counted_below(store, count),
    ensures
        !store.contains_key(token(count)),
        counted_below(store.insert(token(count), contents), count + 1),
{
    if store.contains_key(token(count)) {
        let n = choose|n: nat| n < count && token(count) == #[trigger] token(n);
        tokens_are_unique(n, count);
    }
    let grown = store.insert(token(count), contents);
    assert forall|t: Seq<char>| #[trigger] grown.contains_key(t) implies exists|n: nat|
        n < count + 1 && t == #[trigger] token(n) by {
        if t == token(count) {
        } else {
            assert(store.contains_key(t));
            let n = choose|n: nat| n < count && t == #[trigger] token(n);
            assert(n < count + 1 && t == token(n));
        }
    }
}

/// The token of a count.
pub fn content_token(count: u64) -> (r: String)
    ensures
        r@ == token(count as nat),
{
    let mut r = "cref_".to_owned();
    r.append(decimal_text(count).as_str());
    r
}

} // verus!
