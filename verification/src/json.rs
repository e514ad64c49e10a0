//! JSON documents and their mathematical values.

use vstd::prelude::*;

verus! {

/// A JSON number: a non-negative integer, a negative integer, or a
/// floating-point value carried by its IEEE-754 bit pattern.
#[derive(Clone, Copy, Debug, PartialEq, Eq, Structural)]
pub enum JsonNumber {
    PosInt(u64),
    NegInt(i64),
    Float(u64),
}

/// A JSON document.
#[derive(Debug)]
pub enum Json {
    Null,
    Bool(bool),
    Number(JsonNumber),
    Str(String),
    Array(Vec<Json>),
    Object(Vec<(String, Json)>),
}

/// The mathematical value of a [`Json`] document.
pub enum JsonV {
    Null,
    Bool(bool),
    Number(JsonNumber),
    Str(Seq<char>),
    Array(Seq<JsonV>),
    Object(Map<Seq<char>, JsonV>),
}

/// Views of the elements of an array, in order.
pub open spec fn items_view(items: Seq<Json>) -> Seq<JsonV>
    decreases items, 0int,
{
    Seq::new(
        items.len(),
        |i: int|
            if 0 <= i < items.len() {
                json_view(items[i])
            } else {
                JsonV::Null
            },
    )
}

/// The mapping that a list of object members denotes: members are inserted
/// in order, so of two members with one key the later one stands.
pub open spec fn entries_view(entries: Seq<(String, Json)>) -> Map<Seq<char>, JsonV>
    decreases entries, entries.len(),
{
    if entries.len() == 0 {
        Map::empty()
    } else {
        entries_view(entries.drop_last()).insert(
            entries.last().0@,
            json_view(entries.last().1),
        )
    }
}

/// The mathematical value of a document.
pub open spec fn json_view(j: Json) -> JsonV
    decreases j, 0int,
{
    match j {
        Json::Null => JsonV::Null,
        Json::Bool(b) => JsonV::Bool(b),
        Json::Number(n) => JsonV::Number(n),
        Json::Str(s) => JsonV::Str(s@),
        Json::Array(items) => JsonV::Array(items_view(items@)),
        Json::Object(entries) => JsonV::Object(entries_view(entries@)),
    }
}

impl View for Json {
    type V = JsonV;

    open spec fn view(&self) -> JsonV {
        json_view(*self)
    }
}

impl JsonNumber {
    /// The number as an unsigned 64-bit integer, where it is one.
    pub open spec fn spec_as_u64(self) -> Option<u64> {
        match self {
            JsonNumber::PosInt(n) => Some(n),
            JsonNumber::NegInt(i) => if i >= 0 {
                Some(i as u64)
            } else {
                None
            },
            JsonNumber::Float(_) => None,
        }
    }

    /// The number as a mathematical integer, where it is one.
    pub open spec fn spec_as_int(self) -> Option<int> {
        match self {
            JsonNumber::PosInt(n) => Some(n as int),
            JsonNumber::NegInt(i) => Some(i as int),
            JsonNumber::Float(_) => None,
        }
    }

    /// The number as an unsigned 64-bit integer, where it is one.
    pub fn as_u64(&self) -> (r: Option<u64>)
        ensures
            r == self.spec_as_u64(),
    {
        match self {
            JsonNumber::PosInt(n) => Some(*n),
            JsonNumber::NegInt(i) => if *i >= 0 {
                Some(*i as u64)
            } else {
                None
            },
            JsonNumber::Float(_) => None,
        }
    }
}

impl JsonV {
    /// The member stored under `key`, where this is an object that has one.
    pub open spec fn field(self, key: Seq<char>) -> Option<JsonV> {
        match self {
            JsonV::Object(m) => if m.contains_key(key) {
                Some(m[key])
            } else {
                None
            },
            _ => None,
        }
    }

    /// The text of a string.
    pub open spec fn as_str(self) -> Option<Seq<char>> {
        match self {
            JsonV::Str(s) => Some(s),
            _ => None,
        }
    }

    /// The value of a boolean.
    pub open spec fn as_bool(self) -> Option<bool> {
        match self {
            JsonV::Bool(b) => Some(b),
            _ => None,
        }
    }

    /// The document as an unsigned 64-bit integer, where it is one.
    pub open spec fn as_u64(self) -> Option<u64> {
        match self {
            JsonV::Number(n) => n.spec_as_u64(),
            _ => None,
        }
    }

    /// The document as a mathematical integer, where it is one.
    pub open spec fn as_int(self) -> Option<int> {
        match self {
            JsonV::Number(n) => n.spec_as_int(),
            _ => None,
        }
    }

    /// The document as a signed 32-bit integer, where it is one.
    pub open spec fn as_i32(self) -> Option<i32> {
        match self.as_int() {
            Some(n) => if -0x8000_0000 <= n <= 0x7fff_ffff {
                Some(n as i32)
            } else {
                None
            },
            None => None,
        }
    }

    /// The document as an unsigned 32-bit integer, where it is one.
    pub open spec fn as_u32(self) -> Option<u32> {
        match self.as_int() {
            Some(n) => if 0 <= n <= 0xffff_ffff {
                Some(n as u32)
            } else {
                None
            },
            None => None,
        }
    }

    /// The elements of an array.
    pub open spec fn as_array(self) -> Option<Seq<JsonV>> {
        match self {
            JsonV::Array(items) => Some(items),
            _ => None,
        }
    }

    /// The members of an object.
    pub open spec fn as_object(self) -> Option<Map<Seq<char>, JsonV>> {
        match self {
            JsonV::Object(m) => Some(m),
            _ => None,
        }
    }
}

/// The last member of `entries` stored under `key`.
pub open spec fn last_member(entries: Seq<(String, Json)>, key: Seq<char>) -> Option<Json>
    decreases entries.len(),
{
    if entries.len() == 0 {
        None
    } else if entries.last().0@ == key {
        Some(entries.last().1)
    } else {
        last_member(entries.drop_last(), key)
    }
}

/// Looking a key up in the mapping of a member list finds its last member.
pub proof fn lemma_last_member(entries: Seq<(String, Json)>, key: Seq<char>)
    ensures
        entries_view(entries).contains_key(key) <==> last_member(entries, key) is Some,
        last_member(entries, key) is Some ==> entries_view(entries)[key] == last_member(
            entries,
            key,
        )->0@,
    decreases entries.len(),
{
    if entries.len() > 0 {
        lemma_last_member(entries.drop_last(), key);
    }
}

/// No two members of the list share a key.
pub open spec fn distinct_member_keys(entries: Seq<(String, Json)>) -> bool {
    forall|i: int, j: int| 0 <= i < j < entries.len() ==> entries[i].0@ != entries[j].0@
}

/// The keys of the mapping of a member list are the keys of its members.
pub proof fn lemma_entries_view_dom(entries: Seq<(String, Json)>, key: Seq<char>)
    ensures
        entries_view(entries).contains_key(key) <==> exists|i: int|
            0 <= i < entries.len() && #[trigger] entries[i].0@ == key,
    decreases entries.len(),
{
    if entries.len() > 0 {
        let front = entries.drop_last();
        lemma_entries_view_dom(front, key);
        if entries_view(entries).contains_key(key) {
            if entries.last().0@ == key {
                assert(entries[entries.len() - 1].0@ == key);
            } else {
                let i = choose|i: int| 0 <= i < front.len() && #[trigger] front[i].0@ == key;
                assert(entries[i].0@ == key);
            }
        }
        if exists|i: int| 0 <= i < entries.len() && #[trigger] entries[i].0@ == key {
            let i = choose|i: int| 0 <= i < entries.len() && #[trigger] entries[i].0@ == key;
            if i < entries.len() - 1 {
                assert(front[i].0@ == key);
            }
        }
    }
}

/// With distinct keys, every member of the list is an entry of its
/// mapping.
pub proof fn lemma_entries_view_value(entries: Seq<(String, Json)>, i: int)
    requires
        distinct_member_keys(entries),
        0 <= i < entries.len(),
    ensures
        entries_view(entries).contains_key(entries[i].0@),
        entries_view(entries)[entries[i].0@] == entries[i].1@,
    decreases entries.len(),
{
    let front = entries.drop_last();
    if i < entries.len() - 1 {
        assert(distinct_member_keys(front)) by {
            assert forall|a: int, b: int| 0 <= a < b < front.len() implies front[a].0@
                != front[b].0@ by {
                assert(entries[a].0@ != entries[b].0@);
            }
        }
        lemma_entries_view_value(front, i);
        assert(front[i] == entries[i]);
        assert(entries[i].0@ != entries[entries.len() - 1].0@);
    }
}

/// The mapping that the members from position `from` on denote, built from
/// the last member backwards: a member whose key a later member has is
/// passed over.
pub open spec fn tail_view(entries: Seq<(String, Json)>, from: int) -> Map<Seq<char>, JsonV>
    decreases entries.len() - from,
{
    if from < 0 || from >= entries.len() {
        Map::empty()
    } else {
        let rest = tail_view(entries, from + 1);
        if rest.contains_key(entries[from].0@) {
            rest
        } else {
            rest.insert(entries[from].0@, entries[from].1@)
        }
    }
}

/// The members before `from`, overridden by those from `from` on, denote
/// the mapping of the whole list.
pub proof fn lemma_tail_view_split(entries: Seq<(String, Json)>, from: int)
    requires
        0 <= from <= entries.len(),
    ensures
        entries_view(entries.subrange(0, from)).union_prefer_right(tail_view(entries, from))
            == entries_view(entries),
    decreases entries.len() - from,
{
    if from == entries.len() {
        assert(entries.subrange(0, from) =~= entries);
        assert(entries_view(entries).union_prefer_right(tail_view(entries, from))
            =~= entries_view(entries));
    } else {
        lemma_tail_view_split(entries, from + 1);
        let upto = entries.subrange(0, from + 1);
        assert(upto.drop_last() =~= entries.subrange(0, from));
        assert(upto.last() == entries[from]);
        assert(entries_view(entries.subrange(0, from)).union_prefer_right(
            tail_view(entries, from),
        ) =~= entries_view(upto).union_prefer_right(tail_view(entries, from + 1)));
    }
}

/// Built backwards, the members denote the same mapping.
pub proof fn lemma_tail_view_whole(entries: Seq<(String, Json)>)
    ensures
        tail_view(entries, 0) == entries_view(entries),
{
    lemma_tail_view_split(entries, 0);
    assert(entries.subrange(0, 0) =~= Seq::<(String, Json)>::empty());
    assert(entries_view(entries.subrange(0, 0)).union_prefer_right(tail_view(entries, 0))
        =~= tail_view(entries, 0));
}

/// An entry of the mapping of a tail is an entry of the mapping of every
/// longer tail.
pub proof fn lemma_tail_view_persists(
    entries: Seq<(String, Json)>,
    from: int,
    earlier: int,
    key: Seq<char>,
)
    requires
        0 <= earlier <= from <= entries.len(),
        tail_view(entries, from).contains_key(key),
    ensures
        tail_view(entries, earlier).contains_key(key),
        tail_view(entries, earlier)[key] == tail_view(entries, from)[key],
    decreases from - earlier,
{
    if earlier < from {
        lemma_tail_view_persists(entries, from, earlier + 1, key);
    }
}

impl Json {
    /// The member stored under `key`, if this document is an object that
    /// has one.
    pub fn get(&self, key: &str) -> (r: Option<&Json>)
        ensures
            match r {
                Some(v) => self@.field(key@) == Some(v@),
                None => self@.field(key@) is None,
            },
    {
        match self {
            Json::Object(entries) => {
                let wanted = key.to_string();
                let mut i: usize = entries.len();
                assert(entries@.subrange(0, i as int) =~= entries@);
                while i > 0
                    invariant
                        i <= entries.len(),
                        wanted@ == key@,
                        self@ == JsonV::Object(entries_view(entries@)),
                        last_member(entries@, key@) == last_member(
                            entries@.subrange(0, i as int),
                            key@,
                        ),
                    decreases i,
                {
                    i = i - 1;
                    proof {
                        let upto = entries@.subrange(0, i as int + 1);
                        assert(upto.last() == entries@[i as int]);
                        assert(upto.drop_last() =~= entries@.subrange(0, i as int));
                    }
                    if entries[i].0 == wanted {
                        proof {
                            lemma_last_member(entries@, key@);
                        }
                        return Some(&entries[i].1);
                    }
                }
                proof {
                    lemma_last_member(entries@, key@);
                }
                None
            },
            _ => None,
        }
    }

    /// Whether the document is an object.
    pub fn is_object(&self) -> (r: bool)
        ensures
            r == (self@ is Object),
    {
        match self {
            Json::Object(_) => true,
            _ => false,
        }
    }

    /// Whether the document is null.
    pub fn is_null(&self) -> (r: bool)
        ensures
            r == (self@ is Null),
    {
        match self {
            Json::Null => true,
            _ => false,
        }
    }

    /// The text of a string; nothing for any other document.
    pub fn as_str(&self) -> (r: Option<&str>)
        ensures
            match r {
                Some(s) => self@.as_str() == Some(s@),
                None => self@.as_str() is None,
            },
    {
        match self {
            Json::Str(s) => Some(s.as_str()),
            _ => None,
        }
    }

    /// The value of a boolean; nothing for any other document.
    pub fn as_bool(&self) -> (r: Option<bool>)
        ensures
            r == self@.as_bool(),
    {
        match self {
            Json::Bool(b) => Some(*b),
            _ => None,
        }
    }

    /// The document as an unsigned 64-bit integer, where it is one.
    pub fn as_u64(&self) -> (r: Option<u64>)
        ensures
            r == self@.as_u64(),
    {
        match self {
            Json::Number(n) => n.as_u64(),
            _ => None,
        }
    }

    /// The document as a signed 32-bit integer, where it is one.
    pub fn as_i32(&self) -> (r: Option<i32>)
        ensures
            r == self@.as_i32(),
    {
        match self {
            Json::Number(JsonNumber::PosInt(n)) => if *n <= 0x7fff_ffff {
                Some(*n as i32)
            } else {
                None
            },
            Json::Number(JsonNumber::NegInt(i)) => if -0x8000_0000 <= *i && *i <= 0x7fff_ffff {
                Some(*i as i32)
            } else {
                None
            },
            _ => None,
        }
    }

    /// The document as an unsigned 32-bit integer, where it is one.
    pub fn as_u32(&self) -> (r: Option<u32>)
        ensures
            r == self@.as_u32(),
    {
        match self {
            Json::Number(JsonNumber::PosInt(n)) => if *n <= 0xffff_ffff {
                Some(*n as u32)
            } else {
                None
            },
            Json::Number(JsonNumber::NegInt(i)) => if 0 <= *i && *i <= 0xffff_ffff {
                Some(*i as u32)
            } else {
                None
            },
            _ => None,
        }
    }
}

impl Clone for Json {
    fn clone(&self) -> (r: Json)
        ensures
            r@ == self@,
        decreases self,
    {
        match self {
            Json::Null => Json::Null,
            Json::Bool(b) => Json::Bool(*b),
            Json::Number(n) => Json::Number(*n),
            Json::Str(s) => Json::Str(s.clone()),
            Json::Array(items) => {
                let mut out: Vec<Json> = Vec::new();
                let mut i: usize = 0;
                while i < items.len()
                    invariant
                        *self == Json::Array(*items),
                        i <= items.len(),
                        out.len() == i,
                        forall|k: int| 0 <= k < i ==> out@[k]@ == items@[k]@,
                    decreases items.len() - i,
                {
                    assert(decreases_to!(*self => self->Array_0));
                    assert(decreases_to!(*items => items[i as int]));
                    let item = items[i].clone();
                    out.push(item);
                    i = i + 1;
                }
                assert(items_view(out@) =~= items_view(items@));
                Json::Array(out)
            },
            Json::Object(entries) => {
                let mut out: Vec<(String, Json)> = Vec::new();
                let mut i: usize = 0;
                while i < entries.len()
                    invariant
                        *self == Json::Object(*entries),
                        i <= entries.len(),
                        out.len() == i,
                        entries_view(out@) == entries_view(entries@.subrange(0, i as int)),
                    decreases entries.len() - i,
                {
                    let key = entries[i].0.clone();
                    assert(decreases_to!(*self => self->Object_0));
                    assert(decreases_to!(*entries => entries[i as int]));
                    assert(decreases_to!(entries[i as int] => entries[i as int].1));
                    let value = entries[i].1.clone();
                    proof {
                        let upto = entries@.subrange(0, i as int + 1);
                        assert(upto.drop_last() =~= entries@.subrange(0, i as int));
                        assert(out@.push((key, value)).drop_last() =~= out@);
                    }
                    out.push((key, value));
                    i = i + 1;
                }
                assert(entries@.subrange(0, i as int) =~= entries@);
                Json::Object(out)
            },
        }
    }
}

} // verus!
