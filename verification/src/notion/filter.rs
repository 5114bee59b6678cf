use crate::notion::property::{tag_of, PropertyKind, PropertyType, PropertyTypeView};
use crate::text::{join, joined, texts};
use vstd::prelude::*;
use vstd::string::StringExecFns;

verus! {

/// One condition of a filter: an operator and its operand, applied to a property.
pub struct ConditionView {
    pub property: PropertyTypeView,
    pub operator: Seq<char>,
    pub operand: Seq<char>,
}

/// A filter expression: a first condition and those joined to it by a logical
/// AND. A filter whose first property has an empty name is the unset filter.
#[derive(Debug, PartialEq, Eq)]
pub struct Filter {
    pub property: PropertyType,
    pub condition: (String, String),
    pub others: Vec<(PropertyType, (String, String))>,
}

/// The mathematical value of the conditions joined to the first.
pub open spec fn others_view(others: Seq<(PropertyType, (String, String))>) -> Seq<ConditionView> {
    others.map_values(
        |other: (PropertyType, (String, String))|
            ConditionView { property: other.0@, operator: other.1.0@, operand: other.1.1@ },
    )
}

impl View for Filter {
    type V = Seq<ConditionView>;

    /// The conditions, the first in front; never empty.
    open spec fn view(&self) -> Seq<ConditionView> {
        seq![
            ConditionView {
                property: self.property@,
                operator: self.condition.0@,
                operand: self.condition.1@,
            },
        ] + others_view(self.others@)
    }
}

/// Whether a filter is set: whether its first property has a name.
pub open spec fn is_set(filter: Seq<ConditionView>) -> bool {
    filter.len() > 0 && filter[0].property.name.len() > 0
}

/// The unset filter: one empty condition on a nameless property.
pub open spec fn unset() -> Seq<ConditionView> {
    seq![
        ConditionView {
            property: PropertyTypeView { kind: PropertyKind::Text, name: Seq::empty() },
            operator: Seq::empty(),
            operand: Seq::empty(),
        },
    ]
}

/// One condition as the request body holds it.
pub open spec fn condition_text(condition: ConditionView) -> Seq<char> {
    "{\"property\":\""@ + condition.property.name + "\",\""@ + tag_of(condition.property.kind)
        + "\":{\""@ + condition.operator + "\":\""@ + condition.operand + "\"}}"@
}

/// A filter as the request body holds it: nothing where the filter is unset,
/// the condition where it is alone, else an `and` of the conditions in their
/// order.
pub open spec fn filter_text(filter: Seq<ConditionView>) -> Seq<char> {
    if !is_set(filter) {
        Seq::empty()
    } else if filter.len() == 1 {
        condition_text(filter[0])
    } else {
        "{\"and\":["@ + joined(
            filter.map_values(|condition: ConditionView| condition_text(condition)),
            ","@,
        ) + "]}"@
    }
}

/// Writes one condition as the request body holds it.
fn write_condition(property: &PropertyType, condition: &(String, String)) -> (text: String)
    ensures
        text@ == condition_text(
            ConditionView { property: property@, operator: condition.0@, operand: condition.1@ },
        ),
{
    let mut text = String::from_str("{\"property\":\"");
    let name = property.get_val();
    text.append(name.as_str());
    text.append("\",\"");
    let tag = property.to_string();
    text.append(tag.as_str());
    text.append("\":{\"");
    text.append(condition.0.as_str());
    text.append("\":\"");
    text.append(condition.1.as_str());
    text.append("\"}}");
    assert(text@ =~= condition_text(
        ConditionView { property: property@, operator: condition.0@, operand: condition.1@ },
    ));
    text
}

impl Default for Filter {
    /// The unset filter.
    fn default() -> (filter: Filter)
        ensures
            filter@ == unset(),
    {
        let filter = Filter {
            property: PropertyType::Text(String::new()),
            condition: (String::new(), String::new()),
            others: Vec::new(),
        };
        assert(filter@ =~= unset());
        filter
    }
}

impl Filter {
    /// The filter of one condition.
    pub fn new(property: PropertyType, condition: (String, String)) -> (made: Filter)
        ensures
            made@ == seq![
                ConditionView {
                    property: property@,
                    operator: condition.0@,
                    operand: condition.1@,
                },
            ],
    {
        let made = Filter { property, condition, others: Vec::new() };
        assert(made@ =~= seq![
            ConditionView {
                property: property@,
                operator: condition.0@,
                operand: condition.1@,
            },
        ]);
        made
    }

    /// Both filters at once: the conditions of `self`, then those of `other`.
    pub fn and(self, other: Filter) -> (both: Filter)
        ensures
            both@ == self@ + other@,
    {
        let ghost left = self@;
        let ghost right = other@;
        let Filter { property, condition, others } = self;
        let mut others = others;
        let Filter { property: next_property, condition: next_condition, others: next_others } =
            other;
        let mut next_others = next_others;
        let ghost kept = others_view(others@);
        others.push((next_property, next_condition));
        assert(others_view(others@) =~= kept.push(right[0]));
        let ghost mid = others_view(others@);
        let ghost tail = others_view(next_others@);
        others.append(&mut next_others);
        assert(others_view(others@) =~= mid + tail);
        let both = Filter { property, condition, others };
        assert(both@ =~= left + right);
        both
    }

    /// Writes the filter as the request body holds it.
    pub fn to_string(&self) -> (text: String)
        ensures
            text@ == filter_text(self@),
    {
        let name = self.property.get_val();
        if name.as_str().is_empty() {
            return String::new();
        }
        let first = write_condition(&self.property, &self.condition);
        if self.others.len() == 0 {
            return first;
        }
        let ghost write = |condition: ConditionView| condition_text(condition);
        let mut parts: Vec<String> = Vec::new();
        parts.push(first);
        let mut i: usize = 0;
        assert(texts(parts@) =~= self@.take(1).map_values(write));
        while i < self.others.len()
            invariant
                i <= self.others.len(),
                self@.len() == self.others.len() + 1,
                write == |condition: ConditionView| condition_text(condition),
                texts(parts@) == self@.take(i as int + 1).map_values(write),
            decreases self.others.len() - i,
        {
            let part = write_condition(&self.others[i].0, &self.others[i].1);
            let ghost before = parts@;
            parts.push(part);
            proof {
                assert(self@[i as int + 1] == others_view(self.others@)[i as int]);
                assert(texts(parts@) =~= texts(before).push(part@));
                assert(self@.take(i as int + 2).map_values(write) =~= self@.take(
                    i as int + 1,
                ).map_values(write).push(write(self@[i as int + 1])));
            }
            i += 1;
        }
        proof {
            assert(self@.take(i as int + 1) =~= self@);
        }
        let mut text = String::from_str("{\"and\":[");
        let inner = join(&parts, ",");
        text.append(inner.as_str());
        text.append("]}");
        text
    }
}

} // verus!
