//! Structured documents (JSON responses of the GitHub API, YAML workflow
//! files) as the library reads them.

use vstd::prelude::*;

use crate::text::str_eq;

verus! {

/// A value of a JSON or YAML document.
#[derive(Debug)]
pub enum DocValue {
    Null,
    Bool(bool),
    /// A number; the value when it is a non-negative integer that fits in
    /// 64 bits.
    Number(Option<u64>),
    Text(String),
    List(Vec<DocValue>),
    /// Entries in document order.
    Object(Vec<(DocValue, DocValue)>),
}

/// The value of the first entry whose key is the text `key`.
pub open spec fn entry_value(entries: Seq<(DocValue, DocValue)>, key: Seq<char>) -> Option<DocValue>
    decreases entries.len(),
{
    if entries.len() == 0 {
        None
    } else {
        match entry_value(entries.drop_last(), key) {
            Some(v) => Some(v),
            None => if entries.last().0 matches DocValue::Text(k) && k@ == key {
                Some(entries.last().1)
            } else {
                None
            },
        }
    }
}

impl DocValue {
    /// The value under `key`, when this is a map holding that key.
    pub open spec fn spec_get(self, key: Seq<char>) -> Option<DocValue> {
        match self {
            DocValue::Object(entries) => entry_value(entries@, key),
            _ => None,
        }
    }

    pub open spec fn spec_str(self) -> Option<Seq<char>> {
        match self {
            DocValue::Text(s) => Some(s@),
            _ => None,
        }
    }

    pub open spec fn spec_u64(self) -> Option<u64> {
        match self {
            DocValue::Number(n) => n,
            _ => None,
        }
    }

    pub open spec fn spec_bool(self) -> Option<bool> {
        match self {
            DocValue::Bool(b) => Some(b),
            _ => None,
        }
    }

    pub open spec fn spec_list(self) -> Option<Seq<DocValue>> {
        match self {
            DocValue::List(v) => Some(v@),
            _ => None,
        }
    }

    /// The text under `key`, when there is one.
    pub open spec fn field_str(self, key: Seq<char>) -> Option<Seq<char>> {
        match self.spec_get(key) {
            Some(v) => v.spec_str(),
            None => None,
        }
    }

    /// The integer under `key`, when there is one.
    pub open spec fn field_u64(self, key: Seq<char>) -> Option<u64> {
        match self.spec_get(key) {
            Some(v) => v.spec_u64(),
            None => None,
        }
    }

    /// The boolean under `key`, when there is one.
    pub open spec fn field_bool(self, key: Seq<char>) -> Option<bool> {
        match self.spec_get(key) {
            Some(v) => v.spec_bool(),
            None => None,
        }
    }

    /// The list under `key`, when there is one.
    pub open spec fn field_list(self, key: Seq<char>) -> Option<Seq<DocValue>> {
        match self.spec_get(key) {
            Some(v) => v.spec_list(),
            None => None,
        }
    }

    /// The value under `key`.
    #[verifier::loop_isolation(false)]
    pub fn get(&self, key: &str) -> (r: Option<&DocValue>)
        ensures
            match r {
                Some(v) => self.spec_get(key@) == Some(*v),
                None => self.spec_get(key@) is None,
            },
    {
        match self {
            DocValue::Object(entries) => {
                let mut i: usize = 0;
                while i < entries.len()
                    invariant
                        i <= entries@.len(),
                        entry_value(entries@.take(i as int), key@) is None,
                    decreases entries@.len() - i,
                {
                    assert(entries@.take(i + 1).drop_last() == entries@.take(i as int));
                    let hit = match &entries[i].0 {
                        DocValue::Text(k) => str_eq(k.as_str(), key),
                        _ => false,
                    };
                    if hit {
                        proof {
                            lemma_entry_value_prefix(entries@, key@, (i + 1) as int);
                        }
                        return Some(&entries[i].1);
                    }
                    i = i + 1;
                }
                assert(entries@.take(entries@.len() as int) == entries@);
                None
            },
            _ => None,
        }
    }

    /// The text, when this is one.
    pub fn as_str(&self) -> (r: Option<&str>)
        ensures
            match r {
                Some(s) => self.spec_str() == Some(s@),
                None => self.spec_str() is None,
            },
    {
        match self {
            DocValue::Text(s) => Some(s.as_str()),
            _ => None,
        }
    }

    /// The integer, when this is a non-negative integer.
    pub fn as_u64(&self) -> (r: Option<u64>)
        ensures
            r == self.spec_u64(),
    {
        match self {
            DocValue::Number(n) => *n,
            _ => None,
        }
    }

    /// The boolean, when this is one.
    pub fn as_bool(&self) -> (r: Option<bool>)
        ensures
            r == self.spec_bool(),
    {
        match self {
            DocValue::Bool(b) => Some(*b),
            _ => None,
        }
    }

    /// The elements, when this is a list.
    pub fn as_list(&self) -> (r: Option<&Vec<DocValue>>)
        ensures
            match r {
                Some(v) => self.spec_list() == Some(v@),
                None => self.spec_list() is None,
            },
    {
        match self {
            DocValue::List(v) => Some(v),
            _ => None,
        }
    }

    /// The text under `key`.
    pub fn get_str(&self, key: &str) -> (r: Option<&str>)
        ensures
            match r {
                Some(s) => self.field_str(key@) == Some(s@),
                None => self.field_str(key@) is None,
            },
    {
        match self.get(key) {
            Some(v) => v.as_str(),
            None => None,
        }
    }

    /// The integer under `key`.
    pub fn get_u64(&self, key: &str) -> (r: Option<u64>)
        ensures
            r == self.field_u64(key@),
    {
        match self.get(key) {
            Some(v) => v.as_u64(),
            None => None,
        }
    }

    /// The boolean under `key`.
    pub fn get_bool(&self, key: &str) -> (r: Option<bool>)
        ensures
            r == self.field_bool(key@),
    {
        match self.get(key) {
            Some(v) => v.as_bool(),
            None => None,
        }
    }

    /// The list under `key`.
    pub fn get_list(&self, key: &str) -> (r: Option<&Vec<DocValue>>)
        ensures
            match r {
                Some(v) => self.field_list(key@) == Some(v@),
                None => self.field_list(key@) is None,
            },
    {
        match self.get(key) {
            Some(v) => v.as_list(),
            None => None,
        }
    }
}

/// Extending a prefix whose last entry is the first one with the key.
proof fn lemma_entry_value_prefix(entries: Seq<(DocValue, DocValue)>, key: Seq<char>, n: int)
    requires
        0 < n <= entries.len(),
        entry_value(entries.take(n - 1), key) is None,
        entries[n - 1].0 matches DocValue::Text(k) && k@ == key,
    ensures
        entry_value(entries, key) == Some(entries[n - 1].1),
    decreases entries.len(),
{
    assert(entries.take(n).drop_last() == entries.take(n - 1));
    assert(entry_value(entries.take(n), key) == Some(entries[n - 1].1));
    if n < entries.len() {
        assert(entries.drop_last().take(n) == entries.take(n));
        assert(entries.drop_last().take(n - 1) == entries.take(n - 1));
        lemma_entry_value_prefix(entries.drop_last(), key, n);
    } else {
        assert(entries.take(n) == entries);
    }
}

} // verus!
