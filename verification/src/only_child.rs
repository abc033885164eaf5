//! Selection of the one child of a node that satisfies a predicate or bears
//! a name.

use crate::element::{children_left, next_child, NodeView};
use crate::error::{Error, ErrorView};
use minidom::Element;
use vstd::prelude::*;

verus! {

/// `predicate` can be asked of each of `children`.
pub open spec fn askable<'a, N: 'a, P: Fn(&'a N) -> bool>(predicate: P, children: Seq<N>) -> bool {
    forall|i: int| 0 <= i < children.len() ==> call_requires(predicate, (&#[trigger] children[i],))
}

/// `verdicts` holds, child by child, an answer that `predicate` can give.
pub open spec fn judged<'a, N: 'a, P: Fn(&'a N) -> bool>(
    predicate: P,
    children: Seq<N>,
    verdicts: Seq<bool>,
) -> bool {
    &&& verdicts.len() == children.len()
    &&& forall|i: int|
        0 <= i < children.len() ==> call_ensures(predicate, (&children[i],), #[trigger] verdicts[i])
}

/// The children whose verdict is `true`, in their order.
pub open spec fn retained<N>(children: Seq<N>, verdicts: Seq<bool>) -> Seq<N>
    decreases children.len(),
{
    if children.len() == 0 {
        Seq::empty()
    } else {
        let before = retained(children.drop_last(), verdicts.drop_last());
        if verdicts.last() {
            before.push(children.last())
        } else {
            before
        }
    }
}

/// The outcome of a search by predicate that retained `kept` among the
/// children of the element `element_name`.
pub open spec fn only_retained<N>(element_name: Seq<char>, kept: Seq<N>) -> Result<N, ErrorView> {
    if kept.len() == 0 {
        Err(ErrorView::NoChildrenFound(element_name))
    } else if kept.len() == 1 {
        Ok(kept[0])
    } else {
        Err(ErrorView::MultipleChildrenFound(element_name, kept.len()))
    }
}

/// A search by `predicate` among the children of `node` can end in
/// `result`: the predicate can give one verdict for each child such that
/// `result` is the outcome for the children retained.
pub open spec fn found_by<'a, N: NodeView + 'a, P: Fn(&'a N) -> bool>(
    node: N,
    predicate: P,
    result: Result<N, ErrorView>,
) -> bool {
    exists|verdicts: Seq<bool>|
        #[trigger] judged(predicate, node.children_view(), verdicts) && result == only_retained(
            node.name_view(),
            retained(node.children_view(), verdicts),
        )
}

/// Of each of `children`, `predicate` answers what `rule` says and nothing
/// else.
pub open spec fn decides<'a, N: 'a, P: Fn(&'a N) -> bool>(
    predicate: P,
    children: Seq<N>,
    rule: spec_fn(N) -> bool,
) -> bool {
    forall|i: int, verdict: bool|
        0 <= i < children.len() && #[trigger] call_ensures(predicate, (&children[i],), verdict)
            ==> verdict == rule(children[i])
}

/// The outcome of a search, with the child and the error as specifications
/// see them.
pub open spec fn outcome<N>(found: Result<&N, Error>) -> Result<N, ErrorView> {
    match found {
        Ok(child) => Ok(*child),
        Err(error) => Err(error@),
    }
}

/// The child that a search found, if any, as specifications see it.
pub open spec fn picked<N>(found: Option<&N>) -> Option<N> {
    match found {
        Some(child) => Some(*child),
        None => None,
    }
}

/// The predicate that accepts the nodes that bear the name `child_name`.
pub open spec fn bears_name<N: NodeView>(child_name: Seq<char>) -> spec_fn(N) -> bool {
    |child: N| child.name_view() == child_name
}

/// The children that bear the name `child_name`, in their order.
pub open spec fn named<N: NodeView>(children: Seq<N>, child_name: Seq<char>) -> Seq<N> {
    children.filter(bears_name(child_name))
}

/// The outcome of a search by name that found `kept` to bear the name
/// `child_name` among the children of the element `element_name`.
pub open spec fn only_named<N>(
    element_name: Seq<char>,
    child_name: Seq<char>,
    kept: Seq<N>,
) -> Result<N, ErrorView> {
    if kept.len() == 0 {
        Err(ErrorView::NoChildren(element_name, child_name))
    } else if kept.len() == 1 {
        Ok(kept[0])
    } else {
        Err(ErrorView::MultipleChildren(element_name, child_name, kept.len()))
    }
}

/// Get the one and only child of an element.
///
/// No child and several children are both errors, and different ones.
pub trait OnlyChildElementExt: NodeView {
    /// Tries to get the one child that satisfies `predicate`.
    ///
    /// Every direct child is put to the predicate, in document order. Where
    /// it accepts none, the error is [`Error::NoChildrenFound`]; where it
    /// accepts several, [`Error::MultipleChildrenFound`] with the number of
    /// children accepted.
    fn try_find_only_child<'a, P>(&'a self, predicate: P) -> (found: Result<&'a Self, Error>) where
        P: Fn(&'a Self) -> bool,
        requires
            askable(predicate, self.children_view()),
        ensures
            found_by(*self, predicate, outcome(found)),
    ;

    /// Gets the one child that satisfies `predicate`, if there is exactly
    /// one.
    fn find_only_child<'a, P>(&'a self, predicate: P) -> (found: Option<&'a Self>) where
        P: Fn(&'a Self) -> bool,
        requires
            askable(predicate, self.children_view()),
        ensures
            exists|result: Result<Self, ErrorView>|
                #[trigger] found_by(*self, predicate, result) && picked(found) == result.ok(),
    {
        let tried = self.try_find_only_child(predicate);
        assert(found_by(*self, predicate, outcome(tried)));
        tried.ok()
    }

    /// Tries to get the one child that bears the name `child_name`.
    ///
    /// Where no child bears it, the error is [`Error::NoChildren`]; where
    /// several do, [`Error::MultipleChildren`] with their number.
    fn try_only_child<'a>(&'a self, child_name: &str) -> (found: Result<&'a Self, Error>)
        ensures
            outcome(found) == only_named(
                self.name_view(),
                child_name@,
                named(self.children_view(), child_name@),
            ),
    ;

    /// Gets the one child that bears the name `child_name`, if there is
    /// exactly one.
    fn only_child<'a>(&'a self, child_name: &str) -> (found: Option<&'a Self>)
        ensures
            picked(found) == only_named(
                self.name_view(),
                child_name@,
                named(self.children_view(), child_name@),
            ).ok(),
    {
        self.try_only_child(child_name).ok()
    }
}

impl OnlyChildElementExt for Element {
    /// Walks the child elements once, counts those that `predicate` accepts
    /// and keeps the first of them.
    fn try_find_only_child<'a, P>(&'a self, predicate: P) -> (found: Result<&'a Self, Error>) where
        P: Fn(&'a Self) -> bool,
    {
        let ghost all = self.children_view();
        let mut children = self.children();
        let mut first: Option<&'a Element> = None;
        let mut count: usize = 0;
        let ghost mut verdicts: Seq<bool> = Seq::empty();
        loop
            invariant
                all == self.children_view(),
                all.len() <= usize::MAX,
                verdicts.len() <= all.len(),
                children_left(children) == all.skip(verdicts.len() as int),
                judged(predicate, all.take(verdicts.len() as int), verdicts),
                count == retained(all.take(verdicts.len() as int), verdicts).len(),
                count <= verdicts.len(),
                first is None <==> count == 0,
                first matches Some(child) ==> *child == retained(
                    all.take(verdicts.len() as int),
                    verdicts,
                )[0],
                askable(predicate, all),
            ensures
                verdicts.len() == all.len(),
            decreases children_left(children).len(),
        {
            match next_child(&mut children) {
                Some(child) => {
                    let ghost k = verdicts.len() as int;
                    let verdict = predicate(child);
                    proof {
                        assert(all.take(k + 1).drop_last() =~= all.take(k));
                        assert(verdicts.push(verdict).drop_last() =~= verdicts);
                        verdicts = verdicts.push(verdict);
                    }
                    if verdict {
                        if count == 0 {
                            first = Some(child);
                        }
                        count = count + 1;
                    }
                },
                None => {
                    break;
                },
            }
        }
        assert(all.take(verdicts.len() as int) =~= all);
        match first {
            None => Err(Error::NoChildrenFound(self.name().to_owned())),
            Some(child) => {
                if count == 1 {
                    Ok(child)
                } else {
                    Err(Error::MultipleChildrenFound(self.name().to_owned(), count))
                }
            },
        }
    }

    /// Searches with the predicate that compares a child's name with
    /// `child_name`, and gives a failure its name-specific form.
    fn try_only_child<'a>(&'a self, child_name: &str) -> (found: Result<&'a Self, Error>) {
        let has_name = |child: &'a Element| -> (verdict: bool)
            ensures
                verdict == (child.name_view() == child_name@),
            { child.name().eq(child_name) };
        let by_predicate = self.try_find_only_child(has_name);
        proof {
            lemma_found_by_rule(*self, has_name, bears_name(child_name@), outcome(by_predicate));
        }
        match by_predicate {
            Ok(child) => Ok(child),
            Err(error) => Err(error.by_name(child_name)),
        }
    }
}

/// Where each verdict is what `rule` says of the child, the children
/// retained are those that `rule` accepts.
pub proof fn lemma_retained_by_rule<N>(
    children: Seq<N>,
    verdicts: Seq<bool>,
    rule: spec_fn(N) -> bool,
)
    requires
        verdicts.len() == children.len(),
        forall|i: int| 0 <= i < children.len() ==> verdicts[i] == rule(children[i]),
    ensures
        retained(children, verdicts) == children.filter(rule),
    decreases children.len(),
{
    reveal(Seq::filter);
    if children.len() > 0 {
        lemma_retained_by_rule(children.drop_last(), verdicts.drop_last(), rule);
    }
}

/// No child is retained where every verdict is `false`.
pub proof fn lemma_none_retained<N>(children: Seq<N>, verdicts: Seq<bool>)
    requires
        verdicts.len() == children.len(),
        forall|i: int| 0 <= i < verdicts.len() ==> !verdicts[i],
    ensures
        retained(children, verdicts).len() == 0,
    decreases children.len(),
{
    if children.len() > 0 {
        lemma_none_retained(children.drop_last(), verdicts.drop_last());
    }
}

/// Where the verdict at `i` is the only one that is `true`, the child at
/// `i` is the only one retained.
pub proof fn lemma_one_retained<N>(children: Seq<N>, verdicts: Seq<bool>, i: int)
    requires
        verdicts.len() == children.len(),
        0 <= i < children.len(),
        forall|j: int| 0 <= j < verdicts.len() ==> (verdicts[j] <==> j == i),
    ensures
        retained(children, verdicts) == seq![children[i]],
    decreases children.len(),
{
    if i == children.len() - 1 {
        lemma_none_retained(children.drop_last(), verdicts.drop_last());
    } else {
        lemma_one_retained(children.drop_last(), verdicts.drop_last(), i);
    }
}

/// A search by a predicate that decides by `rule` ends in the outcome for
/// the children that `rule` accepts.
pub proof fn lemma_found_by_rule<'a, N: NodeView + 'a, P: Fn(&'a N) -> bool>(
    node: N,
    predicate: P,
    rule: spec_fn(N) -> bool,
    result: Result<N, ErrorView>,
)
    requires
        found_by(node, predicate, result),
        decides(predicate, node.children_view(), rule),
    ensures
        result == only_retained(node.name_view(), node.children_view().filter(rule)),
{
    let verdicts = choose|verdicts: Seq<bool>|
        #[trigger] judged(predicate, node.children_view(), verdicts) && result == only_retained(
            node.name_view(),
            retained(node.children_view(), verdicts),
        );
    lemma_retained_by_rule(node.children_view(), verdicts, rule);
}

/// A search by a predicate that accepts no child fails with
/// `NoChildrenFound`, which carries the element's name. An element without
/// children is one such case.
pub proof fn lemma_no_child_accepted<'a, N: NodeView + 'a, P: Fn(&'a N) -> bool>(
    node: N,
    predicate: P,
    rule: spec_fn(N) -> bool,
    result: Result<N, ErrorView>,
)
    requires
        found_by(node, predicate, result),
        decides(predicate, node.children_view(), rule),
        forall|i: int| 0 <= i < node.children_view().len() ==> !rule(node.children_view()[i]),
    ensures
        result == Err::<N, ErrorView>(ErrorView::NoChildrenFound(node.name_view())),
{
    let children = node.children_view();
    let verdicts = Seq::new(children.len(), |i: int| rule(children[i]));
    lemma_found_by_rule(node, predicate, rule, result);
    lemma_retained_by_rule(children, verdicts, rule);
    lemma_none_retained(children, verdicts);
}

/// A search by a predicate that accepts the child at `i` and no other
/// child returns that child.
pub proof fn lemma_one_child_accepted<'a, N: NodeView + 'a, P: Fn(&'a N) -> bool>(
    node: N,
    predicate: P,
    rule: spec_fn(N) -> bool,
    result: Result<N, ErrorView>,
    i: int,
)
    requires
        found_by(node, predicate, result),
        decides(predicate, node.children_view(), rule),
        0 <= i < node.children_view().len(),
        forall|j: int|
            0 <= j < node.children_view().len() ==> (rule(node.children_view()[j]) <==> j == i),
    ensures
        result == Ok::<N, ErrorView>(node.children_view()[i]),
{
    let children = node.children_view();
    let verdicts = Seq::new(children.len(), |j: int| rule(children[j]));
    lemma_found_by_rule(node, predicate, rule, result);
    lemma_retained_by_rule(children, verdicts, rule);
    lemma_one_retained(children, verdicts, i);
}

/// A search by a predicate that accepts `count` children, two or more,
/// fails with `MultipleChildrenFound`, which carries the element's name and
/// `count`.
pub proof fn lemma_several_children_accepted<'a, N: NodeView + 'a, P: Fn(&'a N) -> bool>(
    node: N,
    predicate: P,
    rule: spec_fn(N) -> bool,
    result: Result<N, ErrorView>,
    count: nat,
)
    requires
        found_by(node, predicate, result),
        decides(predicate, node.children_view(), rule),
        count == node.children_view().filter(rule).len(),
        count >= 2,
    ensures
        result == Err::<N, ErrorView>(ErrorView::MultipleChildrenFound(node.name_view(), count)),
{
    lemma_found_by_rule(node, predicate, rule, result);
}

/// A search by name is the search by a predicate that accepts the children
/// of that name: it returns the same child, and fails when that search
/// fails, with the error in its name-specific form and the same count.
pub proof fn lemma_by_name_is_by_predicate<'a, N: NodeView + 'a, P: Fn(&'a N) -> bool>(
    node: N,
    predicate: P,
    child_name: Seq<char>,
    result: Result<N, ErrorView>,
)
    requires
        found_by(node, predicate, result),
        decides(predicate, node.children_view(), bears_name(child_name)),
    ensures
        only_named(node.name_view(), child_name, named(node.children_view(), child_name))
            == match result {
            Ok(child) => Ok(child),
            Err(error) => Err(error.by_name(child_name)),
        },
        only_named(node.name_view(), child_name, named(node.children_view(), child_name)).ok()
            == result.ok(),
{
    lemma_found_by_rule(node, predicate, bears_name(child_name), result);
}

} // verus!
