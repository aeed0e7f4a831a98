//! Finding the target groups of a service: what is asked of the tagging service,
//! and which target groups its answer names.

use crate::text::{optional_texts, texts};
use vstd::prelude::*;
use vstd::string::StringExecFns;

verus! {

/// The resource type of a target group, as the tagging service filters by it.
pub const TARGET_GROUP_RESOURCE_TYPE: &'static str = "elasticloadbalancing:targetgroup";

/// The tag under which a target group names the service it belongs to.
pub const SERVICE_NAME_TAG: &'static str = "kubernetes.io/service-name";

/// What stands between namespace and name in the value of that tag.
pub const TAG_SEPARATOR: &'static str = "/";

/// A question to the tagging service: the resources of one type that carry one
/// tag with one value.
#[derive(Debug, Clone, PartialEq, Eq)]
pub struct TagLookup {
    pub resource_type: String,
    pub tag_key: String,
    pub tag_value: String,
}

/// A question to the tagging service as plain text.
pub struct TagLookupView {
    pub resource_type: Seq<char>,
    pub tag_key: Seq<char>,
    pub tag_value: Seq<char>,
}

impl View for TagLookup {
    type V = TagLookupView;

    open spec fn view(&self) -> TagLookupView {
        TagLookupView {
            resource_type: self.resource_type@,
            tag_key: self.tag_key@,
            tag_value: self.tag_value@,
        }
    }
}

/// The value of the service name tag on the target groups of a service: the
/// namespace, a slash, the name.
pub open spec fn service_tag_value(namespace: Seq<char>, name: Seq<char>) -> Seq<char> {
    namespace + TAG_SEPARATOR@ + name
}

/// The question that finds the target groups of a service.
pub open spec fn lookup_of(namespace: Seq<char>, name: Seq<char>) -> TagLookupView {
    TagLookupView {
        resource_type: TARGET_GROUP_RESOURCE_TYPE@,
        tag_key: SERVICE_NAME_TAG@,
        tag_value: service_tag_value(namespace, name),
    }
}

/// The resources that an answer of the tagging service names, in its order. An
/// answer may come without a list, and an entry of the list without a name:
/// both count for nothing.
pub open spec fn named_resources(answer: Option<Seq<Option<Seq<char>>>>) -> Seq<Seq<char>> {
    match answer {
        Some(entries) => entries.filter_map(|entry: Option<Seq<char>>| entry),
        None => Seq::empty(),
    }
}

/// An answer of the tagging service as plain text.
pub open spec fn answer_view(answer: Option<Vec<Option<String>>>) -> Option<
    Seq<Option<Seq<char>>>,
> {
    match answer {
        Some(entries) => Some(optional_texts(entries@)),
        None => None,
    }
}

/// Builds the question that finds the target groups of a service.
pub fn target_group_lookup(namespace: &str, name: &str) -> (lookup: TagLookup)
    ensures
        lookup@ == lookup_of(namespace@, name@),
{
    let mut tag_value = String::from_str(namespace);
    tag_value.append(TAG_SEPARATOR);
    tag_value.append(name);
    TagLookup {
        resource_type: String::from_str(TARGET_GROUP_RESOURCE_TYPE),
        tag_key: String::from_str(SERVICE_NAME_TAG),
        tag_value,
    }
}

/// The names in a list of entries, in order.
fn present_names(entries: &Vec<Option<String>>) -> (names: Vec<String>)
    ensures
        texts(names@) == named_resources(Some(optional_texts(entries@))),
{
    let ghost all = optional_texts(entries@);
    let ghost keep = |entry: Option<Seq<char>>| entry;
    let mut names: Vec<String> = Vec::new();
    let mut i: usize = 0;
    assert(texts(names@) =~= all.take(0).filter_map(keep));
    while i < entries.len()
        invariant
            i <= entries.len(),
            all == optional_texts(entries@),
            keep == |entry: Option<Seq<char>>| entry,
            texts(names@) == all.take(i as int).filter_map(keep),
        decreases entries.len() - i,
    {
        let ghost before = names@;
        proof {
            assert(all.take(i + 1).drop_last() =~= all.take(i as int));
            assert(all.take(i + 1).last() == all[i as int]);
        }
        match &entries[i] {
            Some(name) => {
                names.push(name.clone());
                proof {
                    assert(texts(names@) =~= texts(before) + seq![name@]);
                }
            },
            None => {},
        }
        i += 1;
    }
    assert(all.take(i as int) =~= all);
    names
}

/// Reads from an answer of the tagging service the target groups it names.
pub fn target_groups(answer: &Option<Vec<Option<String>>>) -> (groups: Vec<String>)
    ensures
        texts(groups@) == named_resources(answer_view(*answer)),
{
    match answer {
        Some(entries) => present_names(entries),
        None => {
            let groups: Vec<String> = Vec::new();
            assert(texts(groups@) =~= Seq::<Seq<char>>::empty());
            groups
        },
    }
}

} // verus!
