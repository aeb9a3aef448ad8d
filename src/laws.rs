//! Properties of the plugin list and of the load probe.
use vstd::prelude::*;
use crate::value::{DynValue, str_of, i64_of, lookup};
use crate::vim_plug::{
    VimPlugInfo, State, PlugsError, PlugsStep, StateStep, views, uri_key, uri_of, plug_of,
    plugs_in_order, plugs_first_step, state_first_step, probe_state,
};

verus! {

/// The plugins of two order lists, one after the other, are the plugins of
/// the first followed by those of the second.
pub proof fn lemma_plugs_of_concat(
    plugs: Seq<(DynValue, DynValue)>,
    a: Seq<DynValue>,
    b: Seq<DynValue>,
)
    ensures
        plugs_in_order(plugs, a + b) == plugs_in_order(plugs, a) + plugs_in_order(plugs, b),
    decreases b.len(),
{
    if b.len() == 0 {
        assert(a + b =~= a);
        assert(plugs_in_order(plugs, a) + plugs_in_order(plugs, b) =~= plugs_in_order(plugs, a));
    } else {
        lemma_plugs_of_concat(plugs, a, b.drop_last());
        assert((a + b).drop_last() =~= a + b.drop_last());
        assert((a + b).last() == b.last());
        let pa = plugs_in_order(plugs, a);
        let pb = plugs_in_order(plugs, b.drop_last());
        match plug_of(plugs, b.last()) {
            Some(p) => {
                assert((pa + pb).push(p) =~= pa + pb.push(p));
            },
            None => {},
        }
    }
}

/// Where every item of the order list names a descriptor with an address,
/// there is one plugin for each item, in the order of the list.
pub proof fn lemma_plugs_follow_order(plugs: Seq<(DynValue, DynValue)>, order: Seq<DynValue>)
    requires
        forall|i: int| 0 <= i < order.len() ==> (#[trigger] plug_of(plugs, order[i])).is_some(),
    ensures
        plugs_in_order(plugs, order).len() == order.len(),
        forall|i: int|
            0 <= i < order.len() ==> Some(#[trigger] plugs_in_order(plugs, order)[i]) == plug_of(
                plugs,
                order[i],
            ),
        forall|i: int|
            0 <= i < order.len() ==> Some(#[trigger] plugs_in_order(plugs, order)[i].0) == str_of(
                order[i],
            ),
    decreases order.len(),
{
    if order.len() > 0 {
        let before = order.drop_last();
        assert forall|i: int| 0 <= i < before.len() implies (#[trigger] plug_of(
            plugs,
            before[i],
        )).is_some() by {
            assert(before[i] == order[i]);
        }
        lemma_plugs_follow_order(plugs, before);
        assert(plug_of(plugs, order[order.len() - 1]).is_some());
        assert forall|i: int| 0 <= i < order.len() implies Some(
            #[trigger] plugs_in_order(plugs, order)[i],
        ) == plug_of(plugs, order[i]) by {
            if i < order.len() - 1 {
                assert(before[i] == order[i]);
            }
        }
    }
}

/// An item that names a plugin without a descriptor adds nothing to the list.
pub proof fn lemma_unknown_name_dropped(
    plugs: Seq<(DynValue, DynValue)>,
    a: Seq<DynValue>,
    item: DynValue,
    b: Seq<DynValue>,
)
    requires
        str_of(item) is Some,
        lookup(plugs, str_of(item)->Some_0) is None,
    ensures
        plugs_in_order(plugs, a.push(item) + b) == plugs_in_order(plugs, a + b),
{
    lemma_plugs_of_concat(plugs, a.push(item), b);
    lemma_plugs_of_concat(plugs, a, b);
    assert(a.push(item).drop_last() =~= a);
}

/// An item whose descriptor is not a map, or holds no `uri` attribute, adds
/// nothing to the list.
pub proof fn lemma_descriptor_without_uri_dropped(
    plugs: Seq<(DynValue, DynValue)>,
    a: Seq<DynValue>,
    item: DynValue,
    b: Seq<DynValue>,
)
    requires
        str_of(item) is Some,
        lookup(plugs, str_of(item)->Some_0) is Some,
        ({
            let desc = lookup(plugs, str_of(item)->Some_0)->Some_0;
            !(desc is Dict) || lookup(desc->Dict_0@, uri_key()) is None
        }),
    ensures
        plugs_in_order(plugs, a.push(item) + b) == plugs_in_order(plugs, a + b),
{
    lemma_plugs_of_concat(plugs, a.push(item), b);
    lemma_plugs_of_concat(plugs, a, b);
    assert(a.push(item).drop_last() =~= a);
}

/// On a session that is not ready, neither the list of plugins nor the load
/// state asks for an evaluation: the first fails as not initialized, the
/// second is unknown.
pub proof fn lemma_not_ready_evaluates_nothing()
    ensures
        plugs_first_step(false) == PlugsStep::Finished(Err(PlugsError::NotInitialized)),
        state_first_step(false) == StateStep::Finished(State::Unknown),
{
}

/// vim-plug counts as loaded exactly when the probe evaluates to an integer
/// greater than zero.
pub proof fn lemma_loaded_iff_positive(result: Result<DynValue, String>)
    ensures
        probe_state(result) == State::AlreadyLoaded <==> (result is Ok && i64_of(result->Ok_0) is Some
            && i64_of(result->Ok_0)->Some_0 > 0),
{
}

/// Two queries that see the same descriptor map and the same order list
/// return the same plugins, in the same order.
pub proof fn lemma_plugs_repeatable(
    plugs: Seq<(DynValue, DynValue)>,
    order: Seq<DynValue>,
    first: Seq<VimPlugInfo>,
    second: Seq<VimPlugInfo>,
)
    requires
        views(first) == plugs_in_order(plugs, order),
        views(second) == plugs_in_order(plugs, order),
    ensures
        first.len() == second.len(),
        forall|i: int|
            0 <= i < first.len() ==> first[i].name@ == second[i].name@ && first[i].uri@
                == second[i].uri@,
{
    assert(views(first).len() == first.len());
    assert(views(second).len() == second.len());
    assert forall|i: int| 0 <= i < first.len() implies first[i].name@ == second[i].name@
        && first[i].uri@ == second[i].uri@ by {
        assert(views(first)[i] == first[i]@);
        assert(views(second)[i] == second[i]@);
    }
}

} // verus!
