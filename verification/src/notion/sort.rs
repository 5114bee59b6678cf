use crate::notion::property::{PropertyType, PropertyTypeView};
use crate::text::{join, joined, texts};
use vstd::prelude::*;
use vstd::string::StringExecFns;

verus! {

/// The order in which a sort key arranges the pages.
#[derive(Clone, Copy, Debug, PartialEq, Eq, Structural)]
pub enum Direction {
    Ascending,
    Descending,
}

impl Direction {
    /// The word under which the remote API knows this direction.
    pub open spec fn word(self) -> Seq<char> {
        match self {
            Direction::Ascending => "ascending"@,
            Direction::Descending => "descending"@,
        }
    }

    /// Writes the direction as the remote API knows it.
    pub fn to_string(&self) -> (text: String)
        ensures
            text@ == self.word(),
    {
        match self {
            Direction::Ascending => String::from_str("ascending"),
            Direction::Descending => String::from_str("descending"),
        }
    }
}

/// The sort keys of a query, the most significant first.
#[derive(Clone, Debug, PartialEq, Eq)]
pub struct Sort {
    pub keys: Vec<(PropertyType, Direction)>,
}

/// The mathematical value of a list of sort keys.
pub open spec fn keys_view(keys: Seq<(PropertyType, Direction)>) -> Seq<
    (PropertyTypeView, Direction),
> {
    keys.map_values(|key: (PropertyType, Direction)| (key.0@, key.1))
}

impl View for Sort {
    type V = Seq<(PropertyTypeView, Direction)>;

    open spec fn view(&self) -> Seq<(PropertyTypeView, Direction)> {
        keys_view(self.keys@)
    }
}

/// One sort key as the request body holds it: an object of the field's name
/// and the direction's word.
pub open spec fn key_text(key: (PropertyTypeView, Direction)) -> Seq<char> {
    "{\""@ + key.0.name + "\":\""@ + key.1.word() + "\"}"@
}

/// The sort keys as the request body holds them: nothing where there is no
/// key, else an array of the keys in their order.
pub open spec fn sort_text(keys: Seq<(PropertyTypeView, Direction)>) -> Seq<char> {
    if keys.len() == 0 {
        Seq::empty()
    } else {
        "["@ + joined(keys.map_values(|key: (PropertyTypeView, Direction)| key_text(key)), ","@)
            + "]"@
    }
}

impl Default for Sort {
    /// No sort key.
    fn default() -> (empty: Sort)
        ensures
            empty@ == Seq::<(PropertyTypeView, Direction)>::empty(),
    {
        let empty = Sort { keys: Vec::new() };
        assert(empty@ =~= Seq::empty());
        empty
    }
}

impl Sort {
    /// Appends sort keys; those that were there stay in front.
    pub fn add(&mut self, keys: Vec<(PropertyType, Direction)>)
        ensures
            final(self)@ == old(self)@ + keys_view(keys@),
    {
        let ghost added = keys_view(keys@);
        let mut keys = keys;
        self.keys.append(&mut keys);
        assert(self@ =~= old(self)@ + added);
    }

    /// Writes the sort keys as the request body holds them.
    pub fn to_string(&self) -> (text: String)
        ensures
            text@ == sort_text(self@),
    {
        if self.keys.len() == 0 {
            return String::new();
        }
        let ghost write = |key: (PropertyTypeView, Direction)| key_text(key);
        let mut parts: Vec<String> = Vec::new();
        let mut i: usize = 0;
        assert(texts(parts@) =~= self@.take(0).map_values(write));
        while i < self.keys.len()
            invariant
                i <= self.keys.len(),
                write == |key: (PropertyTypeView, Direction)| key_text(key),
                texts(parts@) == self@.take(i as int).map_values(write),
            decreases self.keys.len() - i,
        {
            let mut part = String::from_str("{\"");
            let name = self.keys[i].0.get_val();
            part.append(name.as_str());
            part.append("\":\"");
            let word = self.keys[i].1.to_string();
            part.append(word.as_str());
            part.append("\"}");
            let ghost before = parts@;
            parts.push(part);
            proof {
                assert(part@ =~= key_text(self@[i as int]));
                assert(texts(parts@) =~= texts(before).push(part@));
                assert(self@.take(i as int + 1).map_values(write) =~= self@.take(
                    i as int,
                ).map_values(write).push(write(self@[i as int])));
            }
            i += 1;
        }
        proof {
            assert(self@.take(i as int) =~= self@);
        }
        let mut text = String::from_str("[");
        let inner = join(&parts, ",");
        text.append(inner.as_str());
        text.append("]");
        text
    }
}

} // verus!
