//! The resources of the fleet as the dashboard holds them: devices, thing
//! groups and deployments, each a table of text rows sorted by name.

use vstd::prelude::*;
use vstd::string::StringExecFns;
use crate::enums::TabsEnum;
use crate::text::{
    le, lemma_lex_le_reflexive, lemma_lex_le_total, lemma_lex_le_transitive, lex_le, lowercase_of,
    to_lowercase,
};
use crate::aws::deployments::Deployments;
use crate::aws::devices::Devices;
use crate::aws::groups::ThingGroups;

pub mod deployments;
pub mod devices;
pub mod groups;

verus! {

/// A collection that can be shown as a table.
pub trait Property<'a> {
    /// The rows of the table, one for each item, a cell for each column.
    spec fn rows(&self) -> Seq<Seq<Seq<char>>>;

    /// Returns the items as rows of text cells.
    fn items(&self) -> (rows: Vec<Vec<String>>)
        ensures
            rows.deep_view() == self.rows(),
    ;
}

/// A resource that has a name.
pub trait Named {
    spec fn spec_name(&self) -> Seq<char>;

    /// The name by which the resource is sorted.
    fn name(&self) -> (name: &str)
        ensures
            name@ == self.spec_name(),
    ;
}

/// The key by which a resource is sorted: its name, in lower case where the
/// case is not to count.
pub open spec fn sort_key<T: Named>(item: T, fold_case: bool) -> Seq<char> {
    if fold_case {
        lowercase_of(item.spec_name())
    } else {
        item.spec_name()
    }
}

/// The items stand in ascending order of their keys.
pub open spec fn sorted_by_key<T: Named>(items: Seq<T>, fold_case: bool) -> bool {
    forall|i: int, j: int|
        0 <= i < j < items.len() ==> lex_le(
            sort_key(#[trigger] items[i], fold_case),
            sort_key(#[trigger] items[j], fold_case),
        )
}

/// The items stand in ascending order of their names, compared without
/// regard to case.
pub open spec fn sorted_by_name<T: Named>(items: Seq<T>) -> bool {
    sorted_by_key(items, true)
}

/// Sorts the items in ascending order of their names, compared without
/// regard to case. The result holds the same items, each as often as before,
/// and items whose names differ in case alone stay in the order in which they
/// came.
pub fn sort_by_name<T: Named>(items: Vec<T>) -> (sorted: Vec<T>)
    ensures
        sorted_by_name(sorted@),
        sorted@.to_multiset() == items@.to_multiset(),
        forall|key: Seq<char>| #[trigger] of_key(sorted@, key, true) == of_key(items@, key, true),
{
    sort_by_key(items, true)
}

/// The key of an item as a string.
fn key_of<T: Named>(item: &T, fold_case: bool) -> (key: String)
    ensures
        key@ == sort_key(*item, fold_case),
{
    if fold_case {
        to_lowercase(item.name())
    } else {
        item.name().to_owned()
    }
}

/// The items of one key, in order.
pub open spec fn of_key<T: Named>(items: Seq<T>, key: Seq<char>, fold_case: bool) -> Seq<T> {
    items.filter(|item: T| sort_key(item, fold_case) == key)
}

/// What passes a filter of a sequence with one more item: what passed before
/// the item, the item if it passes, and what passed behind it.
proof fn lemma_filter_insert<A>(s: Seq<A>, at: int, x: A, pred: spec_fn(A) -> bool)
    requires
        0 <= at <= s.len(),
    ensures
        s.filter(pred) == s.take(at).filter(pred) + s.skip(at).filter(pred),
        s.insert(at, x).filter(pred) == s.take(at).filter(pred) + (if pred(x) {
            seq![x]
        } else {
            Seq::empty()
        }) + s.skip(at).filter(pred),
{
    reveal_with_fuel(Seq::filter, 3);
    assert(seq![x].drop_last() =~= Seq::empty());
    assert(s =~= s.take(at) + s.skip(at));
    assert(s.insert(at, x) =~= (s.take(at) + seq![x]) + s.skip(at));
    Seq::filter_distributes_over_add(s.take(at), s.skip(at), pred);
    Seq::filter_distributes_over_add(s.take(at), seq![x], pred);
    Seq::filter_distributes_over_add(s.take(at) + seq![x], s.skip(at), pred);
}

/// Nothing passes a filter that no item of the sequence passes.
proof fn lemma_filter_none<A>(s: Seq<A>, pred: spec_fn(A) -> bool)
    requires
        forall|i: int| 0 <= i < s.len() ==> !pred(#[trigger] s[i]),
    ensures
        s.filter(pred) == Seq::<A>::empty(),
    decreases s.len(),
{
    reveal(Seq::filter);
    if s.len() > 0 {
        lemma_filter_none(s.drop_last(), pred);
    }
}

/// Sorts the items in ascending order of their names, with or without
/// regard to case. The result holds the same items, each as often as before,
/// and items of the same key stay in the order in which they came.
pub fn sort_by_key<T: Named>(items: Vec<T>, fold_case: bool) -> (sorted: Vec<T>)
    ensures
        sorted_by_key(sorted@, fold_case),
        sorted@.to_multiset() == items@.to_multiset(),
        forall|key: Seq<char>| #[trigger]
            of_key(sorted@, key, fold_case) == of_key(items@, key, fold_case),
{
    broadcast use {
        vstd::seq_lib::to_multiset_len,
        vstd::multiset::lemma_multiset_empty_len,
        vstd::multiset::group_multiset_axioms,
    };

    let ghost all = items@;
    let mut rest = items;
    let mut sorted: Vec<T> = Vec::new();
    proof {
        assert(sorted@.to_multiset().len() == 0);
        assert(sorted@.to_multiset().add(rest@.to_multiset()) =~= all.to_multiset());
        assert forall|key: Seq<char>| #[trigger]
            of_key(sorted@, key, fold_case) + of_key(rest@, key, fold_case) == of_key(
                all,
                key,
                fold_case,
            ) by {
            reveal(Seq::filter);
            assert(of_key(sorted@, key, fold_case) + of_key(rest@, key, fold_case) =~= of_key(
                all,
                key,
                fold_case,
            ));
        }
    }
    while rest.len() > 0
        invariant
            sorted_by_key(sorted@, fold_case),
            sorted@.to_multiset().add(rest@.to_multiset()) == all.to_multiset(),
            forall|key: Seq<char>| #[trigger]
                of_key(sorted@, key, fold_case) + of_key(rest@, key, fold_case) == of_key(
                    all,
                    key,
                    fold_case,
                ),
        decreases rest.len(),
    {
        let ghost rest_before = rest@;
        let ghost sorted_before = sorted@;
        let item = rest.remove(0);
        let key = key_of(&item, fold_case);
        let mut at: usize = 0;
        let mut placed = false;
        while at < sorted.len() && !placed
            invariant
                at <= sorted.len(),
                sorted@ == sorted_before,
                key@ == sort_key(item, fold_case),
                forall|k: int| 0 <= k < at ==> lex_le(sort_key(#[trigger] sorted@[k], fold_case), key@),
                placed ==> at < sorted.len() && !lex_le(sort_key(sorted@[at as int], fold_case), key@),
            decreases sorted.len() - at + (if placed { 0int } else { 1int }),
        {
            let other = key_of(&sorted[at], fold_case);
            if le(other.as_str(), key.as_str()) {
                at += 1;
            } else {
                placed = true;
            }
        }
        proof {
            assert forall|k: int| at <= k < sorted@.len() implies lex_le(
                key@,
                sort_key(#[trigger] sorted@[k], fold_case),
            ) && sort_key(sorted@[k], fold_case) != key@ by {
                lemma_lex_le_total(sort_key(sorted@[at as int], fold_case), key@);
                lemma_lex_le_reflexive(key@);
                lemma_lex_le_reflexive(sort_key(sorted@[at as int], fold_case));
                lemma_lex_le_transitive(
                    key@,
                    sort_key(sorted@[at as int], fold_case),
                    sort_key(sorted@[k], fold_case),
                );
            }
        }
        sorted.insert(at, item);
        proof {
            assert(sorted@ == sorted_before.insert(at as int, item));
            assert(rest@ == rest_before.remove(0));
            assert(item == rest_before[0]);
            assert(rest_before.contains(item));
            vstd::seq_lib::to_multiset_contains(rest_before, item);
            vstd::seq_lib::to_multiset_insert(sorted_before, at as int, item);
            vstd::seq_lib::to_multiset_remove(rest_before, 0);
            assert(sorted@.to_multiset() =~= sorted_before.to_multiset().insert(item));
            assert(rest@.to_multiset() =~= rest_before.to_multiset().remove(item));
            assert(sorted@.to_multiset().add(rest@.to_multiset()) =~= sorted_before.to_multiset().add(
                rest_before.to_multiset(),
            ));
            assert forall|k: Seq<char>| #[trigger]
                of_key(sorted@, k, fold_case) + of_key(rest@, k, fold_case) == of_key(
                    all,
                    k,
                    fold_case,
                ) by {
                let pred = |x: T| sort_key(x, fold_case) == k;
                lemma_filter_insert(sorted_before, at as int, item, pred);
                lemma_filter_insert(rest@, 0, item, pred);
                assert(rest@.insert(0, item) =~= rest_before);
                assert(rest@.take(0) =~= Seq::empty());
                assert(rest@.skip(0) =~= rest@);
                lemma_filter_none(rest@.take(0), pred);
                if pred(item) {
                    lemma_filter_none(sorted_before.skip(at as int), pred);
                }
                assert(of_key(sorted_before, k, fold_case) + of_key(rest_before, k, fold_case)
                    == of_key(all, k, fold_case));
                assert(of_key(sorted@, k, fold_case) + of_key(rest@, k, fold_case) =~= of_key(
                    sorted_before,
                    k,
                    fold_case,
                ) + of_key(rest_before, k, fold_case));
            }
        }
    }
    proof {
        assert(rest@.to_multiset().len() == 0);
        assert(sorted@.to_multiset() =~= all.to_multiset());
        assert forall|key: Seq<char>| #[trigger]
            of_key(sorted@, key, fold_case) == of_key(all, key, fold_case) by {
            lemma_filter_none(rest@, |x: T| sort_key(x, fold_case) == key);
            assert(of_key(sorted@, key, fold_case) + of_key(rest@, key, fold_case) == of_key(
                all,
                key,
                fold_case,
            ));
            assert(of_key(sorted@, key, fold_case) + Seq::<T>::empty() =~= of_key(
                sorted@,
                key,
                fold_case,
            ));
        }
    }
    sorted
}

/// Two sequences of one length, of which the same positions pass their
/// filters and map to the same values, give the same values after filtering
/// and mapping.
pub proof fn lemma_filter_map_alike<A, B, C>(
    a: Seq<A>,
    b: Seq<B>,
    pa: spec_fn(A) -> bool,
    pb: spec_fn(B) -> bool,
    f: spec_fn(A) -> C,
    g: spec_fn(B) -> C,
)
    requires
        a.len() == b.len(),
        forall|i: int| 0 <= i < a.len() ==> pa(#[trigger] a[i]) == pb(b[i]),
        forall|i: int| 0 <= i < a.len() ==> f(#[trigger] a[i]) == g(b[i]),
    ensures
        a.filter(pa).map_values(f) == b.filter(pb).map_values(g),
    decreases a.len(),
{
    reveal(Seq::filter);
    if a.len() > 0 {
        lemma_filter_map_alike(a.drop_last(), b.drop_last(), pa, pb, f, g);
        assert(pa(a.last()) == pb(b[a.len() - 1]));
        assert(f(a.last()) == g(b[a.len() - 1]));
        if pa(a.last()) {
            assert(a.filter(pa).map_values(f) =~= a.drop_last().filter(pa).map_values(f).push(
                f(a.last()),
            ));
            assert(b.filter(pb).map_values(g) =~= b.drop_last().filter(pb).map_values(g).push(
                g(b.last()),
            ));
        }
    } else {
        assert(a.filter(pa).map_values(f) =~= b.filter(pb).map_values(g));
    }
}

/// Two sequences that hold the same items, each as often, still do so after
/// every item was mapped by the same function.
pub proof fn lemma_map_keeps_multiset<A, B>(a: Seq<A>, b: Seq<A>, f: spec_fn(A) -> B)
    requires
        a.to_multiset() == b.to_multiset(),
    ensures
        a.map_values(f).to_multiset() == b.map_values(f).to_multiset(),
    decreases a.len(),
{
    vstd::seq_lib::to_multiset_len(a);
    vstd::seq_lib::to_multiset_len(b);
    if a.len() == 0 {
        assert(a.map_values(f) =~= b.map_values(f));
    } else {
        let last = a.len() - 1;
        let x = a[last];
        assert(a.contains(x));
        vstd::seq_lib::to_multiset_contains(a, x);
        vstd::seq_lib::to_multiset_contains(b, x);
        let j = choose|j: int| 0 <= j < b.len() && b[j] == x;
        vstd::seq_lib::to_multiset_remove(a, last);
        vstd::seq_lib::to_multiset_remove(b, j);
        lemma_map_keeps_multiset(a.remove(last), b.remove(j), f);
        assert(a.map_values(f) =~= a.remove(last).map_values(f).insert(last, f(x)));
        assert(b.map_values(f) =~= b.remove(j).map_values(f).insert(j, f(x)));
        vstd::seq_lib::to_multiset_insert(a.remove(last).map_values(f), last, f(x));
        vstd::seq_lib::to_multiset_insert(b.remove(j).map_values(f), j, f(x));
    }
}

/// A category of resources.
#[derive(Clone, Copy, Debug, PartialEq, Eq, Structural)]
pub enum Info {
    CoreDevices,
    ThingGroups,
    Deployments,
}

impl Info {
    /// Column titles of the category.
    pub open spec fn spec_headers(self) -> Seq<Seq<char>> {
        match self {
            Info::CoreDevices => seq!["Name"@, "Status"@, "Last Status Update"@],
            Info::ThingGroups => seq!["Name"@, "ARN"@],
            Info::Deployments => seq!["Name"@, "Status"@, "Created"@],
        }
    }

    /// Column titles of the category.
    pub fn headers(&self) -> (titles: &'static [&'static str])
        ensures
            titles@.len() == self.spec_headers().len(),
            titles@.len() > 0,
            forall|i: int|
                0 <= i < titles@.len() ==> (#[trigger] titles@[i])@ == self.spec_headers()[i],
    {
        match self {
            Info::CoreDevices => &["Name", "Status", "Last Status Update"],
            Info::ThingGroups => &["Name", "ARN"],
            Info::Deployments => &["Name", "Status", "Created"],
        }
    }

    /// The category that a tab shows.
    pub fn of_tab(tab: TabsEnum) -> (info: Info)
        ensures
            info == Info::spec_of_tab(tab),
    {
        match tab {
            TabsEnum::Devices => Info::CoreDevices,
            TabsEnum::Deployments => Info::Deployments,
        }
    }

    pub open spec fn spec_of_tab(tab: TabsEnum) -> Info {
        match tab {
            TabsEnum::Devices => Info::CoreDevices,
            TabsEnum::Deployments => Info::Deployments,
        }
    }
}

/// What was last loaded of each category.
pub struct Dataset {
    /// Core devices.
    pub devices: Devices,
    /// Thing groups.
    pub groups: ThingGroups,
    /// Deployments.
    pub deployments: Deployments,
}

impl Dataset {
    /// A data set without any resource.
    pub fn new() -> (data: Dataset)
        ensures
            data.devices@.len() == 0,
            data.groups@.len() == 0,
            data.deployments@.len() == 0,
    {
        Dataset {
            devices: Devices::from(Vec::new()),
            groups: ThingGroups::from(Vec::new()),
            deployments: Deployments::from(Vec::new()),
        }
    }

    /// The rows of a category.
    pub open spec fn rows(&self, info: Info) -> Seq<Seq<Seq<char>>> {
        match info {
            Info::CoreDevices => self.devices.rows(),
            Info::ThingGroups => self.groups.rows(),
            Info::Deployments => self.deployments.rows(),
        }
    }

    /// The rows last loaded of a category.
    pub fn info(&self, info: &Info) -> (rows: Vec<Vec<String>>)
        ensures
            rows.deep_view() == self.rows(*info),
    {
        match info {
            Info::CoreDevices => self.devices.items(),
            Info::ThingGroups => self.groups.items(),
            Info::Deployments => self.deployments.items(),
        }
    }

    /// The rows last loaded of the category that a tab shows.
    pub fn snapshot(&self, tab: TabsEnum) -> (rows: Vec<Vec<String>>)
        ensures
            rows.deep_view() == self.rows(Info::spec_of_tab(tab)),
    {
        let info = Info::of_tab(tab);
        self.info(&info)
    }
}

/// Why the data source could not be opened.
pub enum AuthError {
    /// The request could not be sent: no connection, or no valid login.
    Dispatch(String),
    /// The service answered with an error.
    Service(String),
    /// Anything else.
    Other(String),
}

impl AuthError {
    /// The message for the user.
    pub open spec fn spec_message(&self) -> Seq<char> {
        match self {
            AuthError::Dispatch(detail) => "Please authenticate with aws-cli: aws login. "@
                + detail@,
            AuthError::Service(detail) => "Service Error: "@ + detail@,
            AuthError::Other(text) => text@,
        }
    }

    /// The message for the user.
    pub fn message(&self) -> (text: String)
        ensures
            text@ == self.spec_message(),
    {
        match self {
            AuthError::Dispatch(detail) => String::from_str(
                "Please authenticate with aws-cli: aws login. ",
            ).concat(detail.as_str()),
            AuthError::Service(detail) => String::from_str("Service Error: ").concat(
                detail.as_str(),
            ),
            AuthError::Other(text) => text.clone(),
        }
    }
}

} // verus!
