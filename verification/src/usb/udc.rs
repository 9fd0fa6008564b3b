//! Which USB device controllers a gadget is bound to.

use vstd::prelude::*;

use crate::text::{ascii_lower_text, chars_of, same_text, same_text_ignoring_case, texts};
use crate::usb::config::UdcSelector;

verus! {

/// The udev subsystem that USB device controllers belong to.
pub const SUBSYSTEM: &'static str = "udc";

/// Which controllers a gadget is bound to.
#[derive(Debug)]
pub enum Selection {
    /// Only the first controller that appears.
    First,
    /// Every controller, also those that appear later.
    All,
    /// Each of the named controllers.
    Named(Vec<String>),
}

/// Which controllers a gadget is bound to, by name.
pub enum Controllers {
    /// Only the first one that appears.
    First,
    /// Every one.
    All,
    /// Those with these names.
    Named(Set<Seq<char>>),
}

impl View for Selection {
    type V = Controllers;

    open spec fn view(&self) -> Controllers {
        match self {
            Selection::First => Controllers::First,
            Selection::All => Controllers::All,
            Selection::Named(names) => Controllers::Named(texts(names@).to_set()),
        }
    }
}

/// The name stands for all controllers.
pub open spec fn means_all(name: Seq<char>) -> bool {
    ascii_lower_text(name) == ascii_lower_text("all"@) || name == "*"@
}

/// The name stands for the first controller.
pub open spec fn means_first(name: Seq<char>) -> bool {
    ascii_lower_text(name) == ascii_lower_text("first"@)
}

fn is_all(name: &str) -> (r: bool)
    ensures
        r == means_all(name@),
{
    same_text_ignoring_case(name, "all") || same_text(name, "*")
}

fn is_first(name: &str) -> (r: bool)
    ensures
        r == means_first(name@),
{
    same_text_ignoring_case(name, "first")
}

/// The names that a selector lists.
pub open spec fn listed(selector: UdcSelector) -> Seq<Seq<char>> {
    match selector {
        UdcSelector::One(name) => seq![name@],
        UdcSelector::Many(names) => texts(names@),
    }
}

/// The controllers that a selector selects: all of them where it is omitted.
/// A name that stands for all, and then one that stands for the first, counts
/// more than any other.
pub open spec fn selected(selector: Option<UdcSelector>) -> Controllers {
    match selector {
        None => Controllers::All,
        Some(s) => if exists|i: int| 0 <= i < listed(s).len()
            && means_all(#[trigger] listed(s)[i]) {
            Controllers::All
        } else if exists|i: int|
            0 <= i < listed(s).len() && means_first(#[trigger] listed(s)[i]) {
            Controllers::First
        } else {
            Controllers::Named(listed(s).to_set())
        },
    }
}

/// The controller `name` is to be bound, given those that are.
pub open spec fn wanted(
    controllers: Controllers,
    name: Seq<char>,
    bound: Set<Seq<char>>,
) -> bool {
    !bound.contains(name) && (match controllers {
        Controllers::First => bound == Set::<Seq<char>>::empty(),
        Controllers::All => true,
        Controllers::Named(names) => names.contains(name),
    })
}

/// Another controller may still be bound, given those that are.
pub open spec fn more_wanted(controllers: Controllers, bound: Set<Seq<char>>) -> bool {
    match controllers {
        Controllers::First => bound == Set::<Seq<char>>::empty(),
        Controllers::All => true,
        Controllers::Named(names) => !names.subset_of(bound),
    }
}

/// Whether a list holds a name.
fn holds(names: &Vec<String>, name: &str) -> (r: bool)
    ensures
        r == texts(names@).to_set().contains(name@),
{
    let ghost all = texts(names@);
    let mut i: usize = 0;
    while i < names.len()
        invariant
            i <= names.len(),
            all == texts(names@),
            forall|j: int| 0 <= j < i ==> #[trigger] all[j] != name@,
        decreases names.len() - i,
    {
        if same_text(names[i].as_str(), name) {
            assert(all[i as int] == name@);
            return true;
        }
        assert(all[i as int] != name@);
        i += 1;
    }
    assert(!all.contains(name@));
    false
}

/// A copy of a list, without repetitions.
fn distinct(names: &Vec<String>) -> (copy: Vec<String>)
    ensures
        texts(copy@).to_set() == texts(names@).to_set(),
        texts(copy@).no_duplicates(),
{
    let ghost all = texts(names@);
    let mut copy: Vec<String> = Vec::new();
    let mut i: usize = 0;
    assert(texts(copy@).to_set() =~= all.take(0).to_set());
    while i < names.len()
        invariant
            i <= names.len(),
            all == texts(names@),
            texts(copy@).to_set() == all.take(i as int).to_set(),
            texts(copy@).no_duplicates(),
        decreases names.len() - i,
    {
        let ghost before = texts(copy@);
        let ghost name = all[i as int];
        assert(name == names@[i as int]@);
        let seen = holds(&copy, names[i].as_str());
        if !seen {
            copy.push(names[i].clone());
        }
        proof {
            let now = texts(copy@);
            if !seen {
                assert(now =~= before.push(name));
                lemma_push_set(before, name);
            }
            assert(all.take(i + 1) =~= all.take(i as int).push(name));
            lemma_push_set(all.take(i as int), name);
            assert(now.to_set() =~= all.take(i + 1).to_set());
        }
        i += 1;
    }
    assert(all.take(all.len() as int) =~= all);
    copy
}

proof fn lemma_push_set(list: Seq<Seq<char>>, name: Seq<char>)
    ensures
        list.push(name).to_set() == list.to_set().insert(name),
{
    assert forall|x: Seq<char>| list.push(name).to_set().contains(x) == list.to_set().insert(
        name,
    ).contains(x) by {
        if list.contains(x) {
            let j = choose|j: int| 0 <= j < list.len() && list[j] == x;
            assert(list.push(name)[j] == x);
        }
        if x == name {
            assert(list.push(name)[list.len() as int] == x);
        }
    }
    assert(list.push(name).to_set() =~= list.to_set().insert(name));
}

/// Whether any name of a list stands for all controllers.
fn any_all(names: &Vec<String>) -> (r: bool)
    ensures
        r == exists|i: int| 0 <= i < names@.len() && means_all(#[trigger] texts(names@)[i]),
{
    let ghost all = texts(names@);
    let mut i: usize = 0;
    while i < names.len()
        invariant
            i <= names.len(),
            all == texts(names@),
            forall|j: int| 0 <= j < i ==> !means_all(#[trigger] all[j]),
        decreases names.len() - i,
    {
        if is_all(names[i].as_str()) {
            assert(means_all(all[i as int]));
            return true;
        }
        assert(!means_all(all[i as int]));
        i += 1;
    }
    false
}

/// Whether any name of a list stands for the first controller.
fn any_first(names: &Vec<String>) -> (r: bool)
    ensures
        r == exists|i: int| 0 <= i < names@.len() && means_first(#[trigger] texts(names@)[i]),
{
    let ghost all = texts(names@);
    let mut i: usize = 0;
    while i < names.len()
        invariant
            i <= names.len(),
            all == texts(names@),
            forall|j: int| 0 <= j < i ==> !means_first(#[trigger] all[j]),
        decreases names.len() - i,
    {
        if is_first(names[i].as_str()) {
            assert(means_first(all[i as int]));
            return true;
        }
        assert(!means_first(all[i as int]));
        i += 1;
    }
    false
}

impl Selection {
    /// No controller is named twice.
    pub open spec fn wf(self) -> bool {
        self matches Selection::Named(names) ==> texts(names@).no_duplicates()
    }

    /// Derives the selection from the configured selector.
    pub fn from_config(selector: &Option<UdcSelector>) -> (selection: Selection)
        ensures
            selection.wf(),
            selection@ == selected(*selector),
    {
        match selector {
            None => Selection::All,
            Some(UdcSelector::One(name)) => {
                let ghost list = listed(selector->0);
                assert(list[0] == name@);
                if is_all(name.as_str()) {
                    return Selection::All;
                }
                if is_first(name.as_str()) {
                    return Selection::First;
                }
                let mut names: Vec<String> = Vec::new();
                names.push(name.clone());
                assert(texts(names@) =~= list);
                Selection::Named(names)
            },
            Some(UdcSelector::Many(names)) => {
                if any_all(names) {
                    return Selection::All;
                }
                if any_first(names) {
                    return Selection::First;
                }
                Selection::Named(distinct(names))
            },
        }
    }

    /// Whether the controller `name` is to be bound, given those that are.
    pub fn wants(&self, name: &str, bound: &Vec<String>) -> (r: bool)
        ensures
            r == wanted(self@, name@, texts(bound@).to_set()),
    {
        proof {
            lemma_empty_set(bound@);
        }
        if holds(bound, name) {
            return false;
        }
        match self {
            Selection::First => bound.len() == 0,
            Selection::All => true,
            Selection::Named(names) => holds(names, name),
        }
    }

    /// Whether another controller may still be bound, given those that are: is
    /// it worth waiting for more to appear?
    pub fn wants_more(&self, bound: &Vec<String>) -> (r: bool)
        ensures
            r == more_wanted(self@, texts(bound@).to_set()),
    {
        proof {
            lemma_empty_set(bound@);
        }
        match self {
            Selection::First => bound.len() == 0,
            Selection::All => true,
            Selection::Named(names) => {
                let ghost all = texts(names@);
                let ghost have = texts(bound@).to_set();
                let mut i: usize = 0;
                while i < names.len()
                    invariant
                        i <= names.len(),
                        *self == Selection::Named(*names),
                        all == texts(names@),
                        have == texts(bound@).to_set(),
                        forall|j: int| 0 <= j < i ==> have.contains(#[trigger] all[j]),
                    decreases names.len() - i,
                {
                    if !holds(bound, names[i].as_str()) {
                        assert(all[i as int] == names@[i as int]@);
                        assert(all.to_set().contains(all[i as int]) && !have.contains(
                            all[i as int],
                        ));
                        return true;
                    }
                    assert(have.contains(all[i as int]));
                    i += 1;
                }
                assert(all.to_set().subset_of(have));
                false
            },
        }
    }
}

proof fn lemma_empty_set(list: Seq<String>)
    ensures
        texts(list).to_set() == Set::<Seq<char>>::empty() <==> list.len() == 0,
{
    if list.len() > 0 {
        assert(texts(list).to_set().contains(texts(list)[0]));
    } else {
        assert(texts(list).to_set() =~= Set::empty());
    }
}

/// Once no more controllers are wanted, none is.
pub proof fn law_no_more_means_none(
    controllers: Controllers,
    name: Seq<char>,
    bound: Set<Seq<char>>,
)
    requires
        !more_wanted(controllers, bound),
    ensures
        !wanted(controllers, name, bound),
{
}

/// A controller that is bound is not wanted again.
pub proof fn law_bound_once(controllers: Controllers, name: Seq<char>, bound: Set<Seq<char>>)
    ensures
        !wanted(controllers, name, bound.insert(name)),
{
}

/// Where only the first controller is selected, binding one is the end of it.
pub proof fn law_first_binds_one(name: Seq<char>, other: Seq<char>, bound: Set<Seq<char>>)
    requires
        wanted(Controllers::First, name, bound),
    ensures
        !more_wanted(Controllers::First, bound.insert(name)),
        !wanted(Controllers::First, other, bound.insert(name)),
{
    assert(bound.insert(name).contains(name));
}

// ---------------------------------------------------------------------------
// Order
// ---------------------------------------------------------------------------

/// `a` does not come after `b` in dictionary order.
pub open spec fn not_after(a: Seq<char>, b: Seq<char>) -> bool
    decreases a.len(),
{
    if a.len() == 0 {
        true
    } else if b.len() == 0 {
        false
    } else if a[0] != b[0] {
        a[0] < b[0]
    } else {
        not_after(a.drop_first(), b.drop_first())
    }
}

proof fn lemma_total(a: Seq<char>, b: Seq<char>)
    ensures
        not_after(a, b) || not_after(b, a),
    decreases a.len(),
{
    if a.len() > 0 && b.len() > 0 && a[0] == b[0] {
        lemma_total(a.drop_first(), b.drop_first());
    }
}

proof fn lemma_transitive(a: Seq<char>, b: Seq<char>, c: Seq<char>)
    requires
        not_after(a, b),
        not_after(b, c),
    ensures
        not_after(a, c),
    decreases a.len(),
{
    if a.len() > 0 && b.len() > 0 && c.len() > 0 && a[0] == b[0] && b[0] == c[0] {
        lemma_transitive(a.drop_first(), b.drop_first(), c.drop_first());
    }
}

fn is_not_after(a: &[char], b: &[char]) -> (r: bool)
    ensures
        r == not_after(a@, b@),
{
    let mut i: usize = 0;
    assert(a@.skip(0) =~= a@);
    assert(b@.skip(0) =~= b@);
    while i < a.len() && i < b.len() && a[i] == b[i]
        invariant
            i <= a.len(),
            i <= b.len(),
            not_after(a@, b@) == not_after(a@.skip(i as int), b@.skip(i as int)),
        decreases a.len() - i,
    {
        assert(a@.skip(i as int).drop_first() =~= a@.skip(i + 1));
        assert(b@.skip(i as int).drop_first() =~= b@.skip(i + 1));
        i += 1;
    }
    if i >= a.len() {
        true
    } else if i >= b.len() {
        false
    } else {
        a[i] < b[i]
    }
}

/// A list is in dictionary order.
pub open spec fn in_order(list: Seq<Seq<char>>) -> bool {
    forall|i: int, j: int| 0 <= i < j < list.len()
        ==> not_after(#[trigger] list[i], #[trigger] list[j])
}

/// Puts the names of controllers in dictionary order, so that the first one is
/// always the same; where they could not be listed there are none yet.
pub fn existing(names: Option<Vec<String>>) -> (sorted: Vec<String>)
    ensures
        in_order(texts(sorted@)),
        texts(sorted@).to_multiset() == (match names {
            Some(list) => texts(list@).to_multiset(),
            None => Seq::<Seq<char>>::empty().to_multiset(),
        }),
{
    let names = match names {
        Some(names) => names,
        None => {
            let none: Vec<String> = Vec::new();
            assert(texts(none@) =~= Seq::empty());
            none
        },
    };
    let ghost all = texts(names@);
    let mut sorted: Vec<String> = Vec::new();
    let mut i: usize = 0;
    assert(texts(sorted@) =~= all.take(0));
    while i < names.len()
        invariant
            i <= names.len(),
            all == texts(names@),
            in_order(texts(sorted@)),
            texts(sorted@).to_multiset() == all.take(i as int).to_multiset(),
        decreases names.len() - i,
    {
        insert_in_order(&mut sorted, names[i].as_str());
        proof {
            assert(all.take(i + 1) =~= all.take(i as int).push(all[i as int]));
            all.take(i as int).to_multiset_ensures();
        }
        i += 1;
    }
    assert(all.take(all.len() as int) =~= all);
    sorted
}

fn insert_in_order(list: &mut Vec<String>, name: &str)
    requires
        in_order(texts(old(list)@)),
    ensures
        in_order(texts(final(list)@)),
        texts(final(list)@).to_multiset() == texts(old(list)@).to_multiset().insert(name@),
{
    let ghost before = texts(list@);
    let chars = chars_of(name);
    let mut at: usize = 0;
    let mut found: bool = false;
    while at < list.len() && !found
        invariant
            at <= list.len(),
            list@ == old(list)@,
            before == texts(list@),
            chars@ == name@,
            forall|j: int| 0 <= j < at ==> not_after(#[trigger] before[j], name@),
            found ==> at < list.len() && !not_after(before[at as int], name@),
        decreases
            list.len() - at,
            (if found {
                0int
            } else {
                1
            }),
    {
        let other = chars_of(list[at].as_str());
        assert(other@ == before[at as int]);
        if is_not_after(other.as_slice(), chars.as_slice()) {
            at += 1;
        } else {
            found = true;
        }
    }
    list.insert(at, name.to_owned());
    proof {
        let now = texts(list@);
        let p = at as int;
        assert(now =~= before.insert(p, name@));
        assert(now.remove(p) =~= before);
        now.to_multiset_ensures();
        assert(now[p] == name@);
        assert(now.contains(name@));
        assert(now.to_multiset() =~= before.to_multiset().insert(name@));
        assert forall|i: int, j: int| 0 <= i < j < now.len() implies not_after(
            #[trigger] now[i],
            #[trigger] now[j],
        ) by {
            if j < p {
                assert(now[i] == before[i] && now[j] == before[j]);
            } else if j == p {
                assert(now[i] == before[i]);
            } else if i < p {
                assert(now[i] == before[i] && now[j] == before[j - 1]);
            } else {
                assert(now[j] == before[j - 1]);
                lemma_total(name@, before[p]);
                if i == p {
                    if j - 1 > p {
                        assert(not_after(before[p], before[j - 1]));
                        lemma_transitive(name@, before[p], before[j - 1]);
                    }
                } else {
                    assert(now[i] == before[i - 1]);
                }
            }
        }
    }
}

// ---------------------------------------------------------------------------
// Names and order
// ---------------------------------------------------------------------------

proof fn lemma_lower_names()
    ensures
        ascii_lower_text("all"@) == "all"@,
        ascii_lower_text("first"@) == "first"@,
        "all"@ != "first"@,
        "*"@ != "first"@,
{
    reveal_strlit("all");
    reveal_strlit("first");
    reveal_strlit("*");
    assert(ascii_lower_text("all"@) =~= "all"@);
    assert(ascii_lower_text("first"@) =~= "first"@);
    assert("all"@.len() != "first"@.len());
    assert("*"@.len() != "first"@.len());
}

/// Without a selector every controller is bound. `all` in any case and `*` stand for
/// all of them, `first` in any case for the first one, and any other name for
/// itself.
pub proof fn law_one_name(name: String, selection: Selection, omitted: Selection)
    requires
        call_ensures(Selection::from_config, (&Some(UdcSelector::One(name)),), selection),
        call_ensures(Selection::from_config, (&None,), omitted),
    ensures
        omitted is All,
        ascii_lower_text(name@) == "all"@ || name@ == "*"@ ==> selection is All,
        ascii_lower_text(name@) == "first"@ ==> selection is First,
        ascii_lower_text(name@) != "all"@ && name@ != "*"@ && ascii_lower_text(name@) != "first"@
            ==> selection is Named && selection->Named_0@.len() == 1
            && selection->Named_0@[0]@ == name@,
{
    lemma_lower_names();
    let list = listed(UdcSelector::One(name));
    assert(list[0] == name@);
    if selection is First {
        assert(means_first(list[0]));
    }
    if ascii_lower_text(name@) == "first"@ {
        if name@ == "*"@ {
            assert(ascii_lower_text(name@).len() == 1) by {
                reveal_strlit("*");
            }
            reveal_strlit("first");
        }
        assert(!means_all(list[0]));
    }
    if let Selection::Named(names) = selection {
        let set = texts(names@).to_set();
        assert(seq![name@].to_set().contains(seq![name@][0]));
        assert(set.contains(name@));
        let k = choose|k: int| 0 <= k < texts(names@).len() && texts(names@)[k] == name@;
        assert forall|j: int| 0 <= j < names@.len() implies #[trigger] texts(names@)[j] == name@ by {
            assert(set.contains(texts(names@)[j]));
        }
        if names@.len() >= 2 {
            assert(texts(names@)[0] == texts(names@)[1]);
        }
        assert(names@.len() == 1);
        assert(texts(names@)[0] == names@[0]@);
    }
}

/// In a list of names one that stands for all counts most, then one that stands for
/// the first; otherwise each name stands for itself.
pub proof fn law_many_names(names: Vec<String>, selection: Selection, name: Seq<char>)
    requires
        call_ensures(Selection::from_config, (&Some(UdcSelector::Many(names)),), selection),
    ensures
        (exists|i: int|
            0 <= i < names@.len() && (ascii_lower_text(#[trigger] names@[i]@) == "all"@
                || names@[i]@ == "*"@)) <==> selection is All,
        selection is First ==> exists|i: int|
            0 <= i < names@.len() && ascii_lower_text(#[trigger] names@[i]@) == "first"@,
        selection matches Selection::Named(kept) ==> {
            &&& forall|i: int|
                0 <= i < names@.len() ==> ascii_lower_text(#[trigger] names@[i]@) != "first"@
            &&& (exists|i: int| 0 <= i < names@.len() && #[trigger] names@[i]@ == name) <==> (
            exists|i: int| 0 <= i < kept@.len() && #[trigger] kept@[i]@ == name)
            &&& forall|i: int, j: int|
                0 <= i < j < kept@.len() ==> #[trigger] kept@[i]@ != #[trigger] kept@[j]@
        },
{
    lemma_lower_names();
    let list = listed(UdcSelector::Many(names));
    assert(list == texts(names@));
    if exists|i: int|
        0 <= i < names@.len() && (ascii_lower_text(#[trigger] names@[i]@) == "all"@
            || names@[i]@ == "*"@) {
        let i = choose|i: int|
            0 <= i < names@.len() && (ascii_lower_text(#[trigger] names@[i]@) == "all"@
                || names@[i]@ == "*"@);
        assert(means_all(list[i]));
    }
    if selection is All {
        let i = choose|i: int| 0 <= i < list.len() && means_all(#[trigger] list[i]);
        assert(list[i] == names@[i]@);
    }
    if selection is First {
        let i = choose|i: int| 0 <= i < list.len() && means_first(#[trigger] list[i]);
        assert(list[i] == names@[i]@);
    }
    if let Selection::Named(kept) = selection {
        assert forall|i: int| 0 <= i < names@.len() implies ascii_lower_text(#[trigger] names@[i]@)
            != "first"@ by {
            assert(list[i] == names@[i]@);
            if ascii_lower_text(names@[i]@) == "first"@ {
                assert(means_first(list[i]));
            }
        }
        let set = texts(kept@).to_set();
        assert(set == list.to_set());
        if exists|i: int| 0 <= i < names@.len() && #[trigger] names@[i]@ == name {
            let i = choose|i: int| 0 <= i < names@.len() && #[trigger] names@[i]@ == name;
            assert(list[i] == name);
            assert(list.to_set().contains(name));
            let k = choose|k: int| 0 <= k < texts(kept@).len() && texts(kept@)[k] == name;
            assert(kept@[k]@ == name);
        }
        if exists|i: int| 0 <= i < kept@.len() && #[trigger] kept@[i]@ == name {
            let i = choose|i: int| 0 <= i < kept@.len() && #[trigger] kept@[i]@ == name;
            assert(texts(kept@)[i] == name);
            assert(set.contains(name));
            let k = choose|k: int| 0 <= k < list.len() && list[k] == name;
            assert(names@[k]@ == name);
        }
        assert forall|i: int, j: int| 0 <= i < j < kept@.len() implies #[trigger] kept@[i]@
            != #[trigger] kept@[j]@ by {
            assert(texts(kept@)[i] != texts(kept@)[j]);
        }
    }
}

/// A controller that is bound is not bound again. Of the others the first one is
/// bound where only that is selected, every one where all are, and the named ones
/// where names are given. More are worth waiting for as long as one could be bound.
pub proof fn law_bindings(
    selection: Selection,
    name: &str,
    bound: Vec<String>,
    wants: bool,
    more: bool,
)
    requires
        call_ensures(Selection::wants, (&selection, name, &bound), wants),
        call_ensures(Selection::wants_more, (&selection, &bound), more),
    ensures
        ({
            let taken = exists|i: int| 0 <= i < bound@.len() && #[trigger] bound@[i]@ == name@;
            &&& taken ==> !wants
            &&& selection is All ==> more && (wants <==> !taken)
            &&& selection is First ==> (more <==> bound@.len() == 0) && (wants <==> bound@.len()
                == 0)
            &&& selection matches Selection::Named(names) ==> (wants <==> !taken && exists|i: int|
                0 <= i < names@.len() && #[trigger] names@[i]@ == name@)
            &&& selection matches Selection::Named(names) ==> (more <==> exists|i: int|
                0 <= i < names@.len() && !among((#[trigger] names@[i])@, bound@))
            &&& wants ==> more
        }),
{
    let have = texts(bound@);
    lemma_empty_set(bound@);
    if exists|i: int| 0 <= i < bound@.len() && #[trigger] bound@[i]@ == name@ {
        let i = choose|i: int| 0 <= i < bound@.len() && #[trigger] bound@[i]@ == name@;
        assert(have[i] == name@);
        assert(have.to_set().contains(name@));
    } else if have.to_set().contains(name@) {
        let i = choose|i: int| 0 <= i < have.len() && have[i] == name@;
        assert(bound@[i]@ == name@);
    }
    if let Selection::Named(names) = selection {
        let all = texts(names@);
        if exists|i: int| 0 <= i < names@.len() && #[trigger] names@[i]@ == name@ {
            let i = choose|i: int| 0 <= i < names@.len() && #[trigger] names@[i]@ == name@;
            assert(all[i] == name@);
            assert(all.to_set().contains(name@));
        } else if all.to_set().contains(name@) {
            let i = choose|i: int| 0 <= i < all.len() && all[i] == name@;
            assert(names@[i]@ == name@);
        }
        lemma_more_named(names, bound);
    }
}

/// Whether a name is in a list.
pub open spec fn among(name: Seq<char>, list: Seq<String>) -> bool {
    exists|j: int| 0 <= j < list.len() && (#[trigger] list[j])@ == name
}

proof fn lemma_among(name: Seq<char>, list: Seq<String>)
    ensures
        among(name, list) <==> texts(list).to_set().contains(name),
{
    let all = texts(list);
    if among(name, list) {
        let j = choose|j: int| 0 <= j < list.len() && (#[trigger] list[j])@ == name;
        assert(all[j] == name);
        assert(all.to_set().contains(all[j]));
    }
    if all.to_set().contains(name) {
        let j = choose|j: int| 0 <= j < all.len() && all[j] == name;
        assert(list[j]@ == name);
    }
}

proof fn lemma_more_named(names: Vec<String>, bound: Vec<String>)
    ensures
        texts(names@).to_set().subset_of(texts(bound@).to_set()) <==> forall|i: int|
            0 <= i < names@.len() ==> among((#[trigger] names@[i])@, bound@),
{
    let all = texts(names@);
    let have = texts(bound@);
    if all.to_set().subset_of(have.to_set()) {
        assert forall|i: int| 0 <= i < names@.len() implies among(
            (#[trigger] names@[i])@,
            bound@,
        ) by {
            assert(all[i] == names@[i]@);
            assert(all.to_set().contains(all[i]));
            lemma_among(names@[i]@, bound@);
        }
    } else {
        let x = choose|x: Seq<char>| all.to_set().contains(x) && !have.to_set().contains(x);
        let i = choose|i: int| 0 <= i < all.len() && all[i] == x;
        assert(names@[i]@ == x);
        lemma_among(x, bound@);
    }
}

/// Dictionary order: a text comes in front of its continuations, and two texts that
/// part at a character are in the order of that character.
pub proof fn law_dictionary_order(
    start: Seq<char>,
    x: char,
    y: char,
    a: Seq<char>,
    b: Seq<char>,
)
    requires
        x < y,
    ensures
        not_after(start + seq![x] + a, start + seq![y] + b),
        !not_after(start + seq![y] + b, start + seq![x] + a),
        not_after(start, start + a),
        a.len() > 0 ==> !not_after(start + a, start),
    decreases start.len(),
{
    if start.len() > 0 {
        let rest = start.drop_first();
        law_dictionary_order(rest, x, y, a, b);
        assert((start + seq![x] + a).drop_first() =~= rest + seq![x] + a);
        assert((start + seq![y] + b).drop_first() =~= rest + seq![y] + b);
        assert((start + a).drop_first() =~= rest + a);
        assert((start + seq![x] + a)[0] == start[0]);
        assert((start + seq![y] + b)[0] == start[0]);
        assert((start + a)[0] == start[0]);
    } else {
        assert((start + seq![x] + a)[0] == x);
        assert((start + seq![y] + b)[0] == y);
        assert(start + a =~= a);
    }
}

/// The names come in order, each as often as it was given, and none where they could
/// not be listed.
pub proof fn law_existing(
    names: Vec<String>,
    sorted: Vec<String>,
    unlisted: Vec<String>,
    i: int,
    j: int,
)
    requires
        call_ensures(existing, (Some(names),), sorted),
        call_ensures(existing, (None,), unlisted),
        0 <= i < j < sorted@.len(),
    ensures
        not_after(sorted@[i]@, sorted@[j]@),
        sorted@.len() == names@.len(),
        unlisted@.len() == 0,
        texts(sorted@).to_multiset() == texts(names@).to_multiset(),
{
    let s = texts(sorted@);
    assert(s[i] == sorted@[i]@ && s[j] == sorted@[j]@);
    s.to_multiset_ensures();
    texts(names@).to_multiset_ensures();
    texts(unlisted@).to_multiset_ensures();
    Seq::<Seq<char>>::empty().to_multiset_ensures();
}

} // verus!
