//! What holds of the kernel tuner as a whole.
use crate::event::{KeyCode, KeyEvent, MouseEvent};
use crate::kerneltune_screen;
use crate::kerneltune_screen::{
    ApplyItemModel, CatalogField, CatalogModel, CatalogTabModel, DetailField, DetailModalModel, HistoryEntryModel,
    KernelTuneLayoutModel, KernelTuneScreenModel, MsgModel, RequestModel, ReviewField, Risk, StagedChangeModel, Tab,
    TargetInfoModel, TunableModel,
};
use crate::lists;
use crate::log;
use crate::mouse;
use vstd::prelude::*;

verus! {

/// Going to the next field and back ends where it started.
pub proof fn fields_cycle(c: CatalogField, d: DetailField, r: ReviewField)
    ensures
        c.next().prev() == c && c.prev().next() == c,
        d.next().prev() == d && d.prev().next() == d,
        r.next().prev() == r && r.prev().next() == r,
{
}

/// Going on in a filter and back ends where it started, from "all" as from
/// any of the choices.
pub proof fn filter_choices_cycle(c: Option<usize>, n: int)
    requires
        0 <= n <= usize::MAX,
        c matches Some(i) ==> i < n,
    ensures
        kerneltune_screen::prev_choice(kerneltune_screen::next_choice(c, n), n) == c,
        kerneltune_screen::next_choice(kerneltune_screen::prev_choice(c, n), n) == c,
{
}

/// The catalog shows exactly the tunables that pass both filters, and all of
/// them without a filter.
pub proof fn the_catalog_shows_what_passes(t: CatalogTabModel, catalog: CatalogModel, i: int)
    ensures
        0 <= i < t.filtered(catalog).len() ==> catalog.tunables.contains(t.filtered(catalog)[i])
            && kerneltune_screen::admitted(t.filtered(catalog)[i], t.profile_filter, t.category_filter),
        t.profile_filter is None && t.category_filter is None ==> t.filtered(catalog) == catalog.tunables,
{
    let keep = |u: TunableModel| kerneltune_screen::admitted(u, t.profile_filter, t.category_filter);
    if 0 <= i < t.filtered(catalog).len() {
        lists::lemma_filter_part(catalog.tunables, keep, i);
    }
    if t.profile_filter is None && t.category_filter is None {
        lists::lemma_filter_all(catalog.tunables, keep);
    }
}

/// Whether no tunable is staged twice.
pub open spec fn staged_once(s: Seq<StagedChangeModel>) -> bool {
    forall|i: int, j: int| 0 <= i < j < s.len() ==> (#[trigger] s[i]).key != (#[trigger] s[j]).key
}

proof fn lemma_without_key(s: Seq<StagedChangeModel>, key: Seq<char>)
    ensures
        staged_once(s) ==> staged_once(kerneltune_screen::without_key(s, key)),
        forall|i: int|
            0 <= i < kerneltune_screen::without_key(s, key).len() ==> {
                let c = #[trigger] kerneltune_screen::without_key(s, key)[i];
                c.key != key && s.contains(c)
            },
    decreases s.len(),
{
    let keep = |c: StagedChangeModel| c.key != key;
    let w = kerneltune_screen::without_key(s, key);
    assert forall|i: int| 0 <= i < w.len() implies (#[trigger] w[i]).key != key && s.contains(w[i]) by {
        lists::lemma_filter_part(s, keep, i);
    }
    reveal(Seq::filter);
    if s.len() > 0 && staged_once(s) {
        let front = s.drop_last();
        lemma_without_key(front, key);
        let v = kerneltune_screen::without_key(front, key);
        assert(staged_once(front)) by {
            assert forall|i: int, j: int| 0 <= i < j < front.len() implies (#[trigger] front[i]).key
                != (#[trigger] front[j]).key by {
                assert(s[i].key != s[j].key);
            }
        }
        assert forall|i: int, j: int| 0 <= i < j < w.len() implies (#[trigger] w[i]).key != (#[trigger] w[j]).key by {
            if j < v.len() {
                assert(w[i] == v[i] && w[j] == v[j]);
            } else {
                assert(w[j] == s.last() && w[i] == v[i]);
                let k = choose|k: int| 0 <= k < front.len() && front[k] == v[i];
                assert(s[k].key != s[s.len() - 1].key);
            }
        }
    }
}

/// Staging a value leaves one change of the tunable, with that value, and
/// keeps whether it persists. A new change does not.
pub proof fn a_tunable_is_staged_once(
    s: Seq<StagedChangeModel>,
    key: Seq<char>,
    previous: Seq<char>,
    value: Seq<char>,
)
    requires
        staged_once(s),
    ensures
        staged_once(kerneltune_screen::staged_with(s, key, previous, value)),
        ({
            let c = kerneltune_screen::staged_with(s, key, previous, value).last();
            &&& c.key == key && c.value == value && c.previous == previous
            &&& kerneltune_screen::staged_of(s, key) is None ==> !c.persist
            &&& kerneltune_screen::staged_of(s, key) matches Some(o) ==> c.persist == o.persist
        }),
{
    lemma_without_key(s, key);
}

/// Staging a profile keeps each tunable staged at most once.
pub proof fn a_profile_stages_each_once(
    tunables: Seq<TunableModel>,
    staged: Seq<StagedChangeModel>,
    values: Seq<(Seq<char>, Seq<char>)>,
    p: int,
)
    requires
        staged_once(staged),
    ensures
        staged_once(kerneltune_screen::profile_staged(tunables, staged, values, p)),
    decreases tunables.len(),
{
    if tunables.len() > 0 {
        a_profile_stages_each_once(tunables.drop_last(), staged, values, p);
        let front = kerneltune_screen::profile_staged(tunables.drop_last(), staged, values, p);
        let t = tunables.last();
        match t.recommended_for(p) {
            Some(v) => {
                a_tunable_is_staged_once(front, t.key, kerneltune_screen::value_or_empty(values, t.key), v);
            },
            None => {},
        }
    }
}

/// Every change that a profile recommends is staged with the recommended
/// value, where no two tunables of the catalog share a key.
pub proof fn a_profile_stages_what_it_recommends(
    tunables: Seq<TunableModel>,
    staged: Seq<StagedChangeModel>,
    values: Seq<(Seq<char>, Seq<char>)>,
    p: int,
    i: int,
)
    requires
        0 <= i < tunables.len(),
        forall|a: int, b: int|
            0 <= a < b < tunables.len() ==> (#[trigger] tunables[a]).key != (#[trigger] tunables[b]).key,
        tunables[i].recommended_for(p) is Some,
    ensures
        exists|k: int|
            0 <= k < kerneltune_screen::profile_staged(tunables, staged, values, p).len() && {
                let c = #[trigger] kerneltune_screen::profile_staged(tunables, staged, values, p)[k];
                c.key == tunables[i].key && Some(c.value) == tunables[i].recommended_for(p)
            },
    decreases tunables.len(),
{
    let front = tunables.drop_last();
    let before = kerneltune_screen::profile_staged(front, staged, values, p);
    let all = kerneltune_screen::profile_staged(tunables, staged, values, p);
    let t = tunables.last();
    if i == tunables.len() - 1 {
        let c = all[all.len() - 1];
        assert(c.key == t.key);
    } else {
        assert forall|a: int, b: int| 0 <= a < b < front.len() implies (#[trigger] front[a]).key
            != (#[trigger] front[b]).key by {
            assert(tunables[a].key != tunables[b].key);
        }
        a_profile_stages_what_it_recommends(front, staged, values, p, i);
        let k = choose|k: int|
            0 <= k < before.len() && {
                let c = #[trigger] before[k];
                c.key == front[i].key && Some(c.value) == front[i].recommended_for(p)
            };
        match t.recommended_for(p) {
            Some(v) => {
                assert(tunables[i].key != tunables[tunables.len() - 1].key);
                let keep = |c: StagedChangeModel| c.key != t.key;
                lists::lemma_filter_keeps(before, keep, k);
                let w = kerneltune_screen::without_key(before, t.key);
                let j = choose|j: int| 0 <= j < w.len() && w[j] == before[k];
                assert(all[j] == before[k]);
            },
            None => {
                assert(all[k] == before[k]);
            },
        }
    }
}

/// Turning the persistence of a change twice changes nothing.
pub proof fn turning_persistence_twice_changes_nothing(s: KernelTuneScreenModel, i: int)
    ensures
        s.turn_persist(i).turn_persist(i) == s,
{
    reveal(KernelTuneScreenModel::turn_persist);
    assert(s.turn_persist(i).turn_persist(i).staged =~= s.staged);
}

/// The button for all makes every change persist, or, where all of them do,
/// none.
pub proof fn the_button_turns_all_persistence(s: KernelTuneScreenModel, i: int)
    requires
        0 <= i < s.staged.len(),
    ensures
        s.turn_all().staged.len() == s.staged.len(),
        s.turn_all().staged[i] == (StagedChangeModel {
            persist: !kerneltune_screen::all_persist(s.staged),
            ..s.staged[i]
        }),
{
    reveal(KernelTuneScreenModel::turn_all);
}

/// No key applies anything by surprise: only Enter does, on Apply with nothing
/// risky staged, or as the answer to the question that a risky change raises.
/// What is applied is what is staged.
pub proof fn risky_changes_need_the_question(s: KernelTuneScreenModel, key: KeyEvent)
    requires
        s.requests.len() == 0,
    ensures
        ({
            let t = s.on_key(key).0;
            t.requests.len() > 0 && t.requests[0] is Apply ==> {
                &&& s.log.alert is None
                &&& key.code == KeyCode::Enter
                &&& s.confirm_apply is Some || kerneltune_screen::risky(s.staged, s.catalog.tunables).len() == 0
                &&& t.requests[0] == RequestModel::Apply {
                    target: s.target_tab.target(),
                    items: kerneltune_screen::to_apply(s.staged, s.catalog.tunables),
                }
            }
        }),
{
    reveal(KernelTuneScreenModel::on_confirm_key);
    if s.log.alert is None && s.confirm_apply is None {
        lemma_tab_keys(s, key.code);
    }
}

proof fn lemma_tab_keys(s: KernelTuneScreenModel, key: KeyCode)
    requires
        s.requests.len() == 0,
    ensures
        ({
            let t = s.on_tab_key(key);
            t.requests.len() > 0 && t.requests[0] is Apply ==> {
                &&& key == KeyCode::Enter
                &&& kerneltune_screen::risky(s.staged, s.catalog.tunables).len() == 0
                &&& t.requests[0] == RequestModel::Apply {
                    target: s.target_tab.target(),
                    items: kerneltune_screen::to_apply(s.staged, s.catalog.tunables),
                }
            }
        }),
{
    reveal(KernelTuneScreenModel::on_tab_key);
    match s.tab {
        Tab::Target => {
            reveal(KernelTuneScreenModel::on_target_key);
            reveal(KernelTuneScreenModel::target_done);
            reveal(KernelTuneScreenModel::connect);
        },
        Tab::Catalog => {
            reveal(KernelTuneScreenModel::on_catalog_key);
            reveal(KernelTuneScreenModel::on_catalog_field_key);
            reveal(KernelTuneScreenModel::detail_done);
            reveal(KernelTuneScreenModel::open_detail);
            reveal(KernelTuneScreenModel::apply_profile);
        },
        Tab::Review => {
            reveal(KernelTuneScreenModel::on_review_key);
            reveal(KernelTuneScreenModel::on_staged_key);
            reveal(KernelTuneScreenModel::turn_persist);
            reveal(KernelTuneScreenModel::unstage);
            reveal(KernelTuneScreenModel::turn_all);
            reveal(KernelTuneScreenModel::request_apply);
        },
        Tab::Revert => {
            reveal(KernelTuneScreenModel::on_revert_key);
            reveal(KernelTuneScreenModel::revert_row);
            reveal(KernelTuneScreenModel::revert_one);
            reveal(KernelTuneScreenModel::revert_all);
        },
    }
}

/// A click applies changes only where nothing risky is staged.
pub proof fn clicks_apply_safe_changes_alone(s: KernelTuneScreenModel, me: MouseEvent, l: KernelTuneLayoutModel)
    requires
        s.requests.len() == 0,
    ensures
        ({
            let t = s.on_mouse(me, l);
            t.requests.len() > 0 && t.requests[0] is Apply ==> {
                &&& kerneltune_screen::risky(s.staged, s.catalog.tunables).len() == 0
                &&& t.requests[0] == RequestModel::Apply {
                    target: s.target_tab.target(),
                    items: kerneltune_screen::to_apply(s.staged, s.catalog.tunables),
                }
            }
        }),
{
    match s.tab {
        Tab::Target => {
            reveal(KernelTuneScreenModel::on_target_mouse);
            reveal(KernelTuneScreenModel::target_done);
            reveal(KernelTuneScreenModel::connect);
        },
        Tab::Catalog => {
            reveal(KernelTuneScreenModel::on_catalog_mouse);
            reveal(KernelTuneScreenModel::catalog_clicked);
            reveal(KernelTuneScreenModel::open_detail);
            reveal(KernelTuneScreenModel::apply_profile);
        },
        Tab::Review => {
            reveal(KernelTuneScreenModel::on_review_mouse);
            reveal(KernelTuneScreenModel::review_clicked);
            reveal(KernelTuneScreenModel::turn_persist);
            reveal(KernelTuneScreenModel::turn_all);
            reveal(KernelTuneScreenModel::request_apply);
        },
        Tab::Revert => {
            reveal(KernelTuneScreenModel::on_revert_mouse);
            reveal(KernelTuneScreenModel::revert_row);
            reveal(KernelTuneScreenModel::revert_one);
            reveal(KernelTuneScreenModel::revert_all);
        },
    }
}

/// The question and the window of a tunable are for the keyboard alone: no
/// mouse event answers or closes them.
pub proof fn open_windows_take_no_mouse(s: KernelTuneScreenModel, me: MouseEvent, l: KernelTuneLayoutModel)
    requires
        s.log.alert is None,
        s.confirm_apply is Some || s.catalog_tab.detail is Some,
    ensures
        s.on_mouse(me, l) == s,
{
}

/// A change that was applied is no longer staged, its value is the current
/// one, and it is recorded so that it can be reverted.
pub proof fn applied_changes_are_recorded(s: KernelTuneScreenModel, item: ApplyItemModel, i: int)
    ensures
        0 <= i < s.applied(item).staged.len() ==> s.applied(item).staged[i].key != item.key,
        kerneltune_screen::by_key(s.catalog.tunables, item.key) matches Some(t) ==> s.applied(item).requests
            == s.requests.push(
            RequestModel::Record {
                label: s.target_label,
                key: t.key,
                title: t.title,
                previous: item.previous,
                value: item.value,
                persisted: item.recorded,
            },
        ),
{
    lemma_without_key(s.staged, item.key);
}

/// Connecting to a target drops what was staged for another one.
pub proof fn connecting_starts_afresh(
    s: KernelTuneScreenModel,
    label: Seq<char>,
    info: TargetInfoModel,
    values: Seq<(Seq<char>, Seq<char>)>,
)
    ensures
        ({
            let t = s.absorb(MsgModel::Connected { label, info, values });
            t.staged.len() == 0 && t.target_label == label && t.current_values == values
        }),
{
}

/// Only changes that were made on the connected target are reverted.
pub proof fn only_changes_of_the_target_are_reverted(s: KernelTuneScreenModel, i: int)
    requires
        s.requests.len() == 0,
    ensures
        ({
            let r = s.revert_all().requests;
            r.len() > 0 ==> {
                &&& s.target_label.len() > 0
                &&& r[0] matches RequestModel::RevertAll { target, label, entries }
                &&& label == s.target_label
                &&& 0 <= i < entries.len() ==> entries[i].target == s.target_label && s.history_entries.contains(
                    entries[i],
                )
            }
        }),
        ({
            let r = s.revert_row(i).requests;
            r.len() > 0 ==> {
                &&& s.target_label.len() > 0
                &&& r[0] matches RequestModel::RevertOne { target, label, entry }
                &&& label == s.target_label
                &&& entry.target == s.target_label
                &&& entry.key == s.entries()[i].key
            }
        }),
{
    reveal(KernelTuneScreenModel::revert_all);
    reveal(KernelTuneScreenModel::revert_row);
    reveal(KernelTuneScreenModel::revert_one);
    let ours = s.entries();
    let known = kerneltune_screen::known_entries(ours, s.catalog.tunables);
    let tunables = s.catalog.tunables;
    if 0 <= i < known.len() {
        lists::lemma_filter_part(
            ours,
            |e: HistoryEntryModel| kerneltune_screen::by_key(tunables, e.key) is Some,
            i,
        );
        let k = choose|k: int| 0 <= k < ours.len() && ours[k] == known[i];
        let label = s.target_label;
        lists::lemma_filter_part(s.history_entries, |e: HistoryEntryModel| e.target == label, k);
    }
    if 0 <= i < ours.len() {
        lemma_entry(s.history_entries, s.target_label, ours[i].key);
    }
}

proof fn lemma_entry(s: Seq<HistoryEntryModel>, label: Seq<char>, key: Seq<char>)
    ensures
        kerneltune_screen::entry_of(s, label, key) matches Some(e) ==> e.target == label && e.key == key,
    decreases s.len(),
{
    if s.len() > 0 {
        lemma_entry(s.drop_first(), label, key);
    }
}

/// The window of a tunable opens with the staged value, else with the
/// current one, else with what the profile recommends.
pub proof fn the_window_starts_with_what_is_known(
    t: TunableModel,
    current: Option<Seq<char>>,
    staged: Option<Seq<char>>,
    profile: Option<usize>,
)
    ensures
        ({
            let v = DetailModalModel::opened(t, current, staged, profile).value.text;
            &&& staged is Some && staged->0.len() > 0 ==> v == staged->0
            &&& staged is None && current is Some && current->0.len() > 0 ==> v == current->0
            &&& staged is None && current is None && profile is Some && t.recommended_for(profile->0 as int) is Some
                ==> v == t.recommended_for(profile->0 as int)->0
        }),
{
}

/// A message box takes every key and every mouse event until it is dismissed.
pub proof fn messages_take_all_input(
    s: KernelTuneScreenModel,
    key: KeyEvent,
    me: MouseEvent,
    l: KernelTuneLayoutModel,
)
    requires
        s.log.alert is Some,
    ensures
        s.on_key(key) == (if log::closes_alert(key.code) {
            s.with_log(s.log.dismissed())
        } else {
            s
        }, false),
        s.on_mouse(me, l) == if mouse::clicked(me) is Some {
            s.with_log(s.log.dismissed())
        } else {
            s
        },
{
}

/// A key that leaves the screen changes nothing on it, and nothing that is
/// open over a tab is left but by Ctrl+C.
pub proof fn leaving_changes_nothing(s: KernelTuneScreenModel, key: KeyEvent)
    ensures
        s.on_key(key).1 ==> s.on_key(key).0 == s && s.confirm_apply is None,
        s.on_key(key).1 && !key.chord('c') ==> key.code == KeyCode::Esc && !s.target_tab.picking()
            && s.catalog_tab.detail is None,
{
}

/// A question comes up exactly where a change of a tunable that is not safe
/// is staged.
pub proof fn questions_are_raised_by_risk(staged: Seq<StagedChangeModel>, tunables: Seq<TunableModel>)
    ensures
        kerneltune_screen::risky(staged, tunables).len() > 0 <==> exists|i: int|
            0 <= i < staged.len() && (kerneltune_screen::by_key(tunables, (#[trigger] staged[i]).key) matches Some(
                t,
            ) && t.risk != Risk::Safe),
    decreases staged.len(),
{
    if staged.len() > 0 {
        let front = staged.drop_last();
        questions_are_raised_by_risk(front, tunables);
        if kerneltune_screen::risky(front, tunables).len() > 0 {
            let i = choose|i: int|
                0 <= i < front.len() && (kerneltune_screen::by_key(tunables, (#[trigger] front[i]).key) matches Some(
                    t,
                ) && t.risk != Risk::Safe);
            assert(staged[i] == front[i]);
        }
        assert(staged[staged.len() - 1] == staged.last());
        assert forall|i: int| 0 <= i < staged.len() - 1 implies (#[trigger] staged[i]) == front[i] by {}
    }
}

} // verus!
