//! What the operations of the kernel tuner are for.
use crate::event::{KeyCode, KeyEvent};
use crate::kerneltune_screen;
use crate::kerneltune_screen::{
    ApplyItemModel, CatalogField, CatalogTabModel, DetailField, DetailModalModel, HistoryEntryModel,
    KernelTuneScreenModel, MsgModel, ProfileValueModel, RequestModel, ReviewField, Risk, StagedChangeModel, Tab,
    TargetInfoModel, TunableModel,
};
use crate::lists;
use crate::lists::first_at;
use crate::target::{TargetField, TargetTabModel};
use crate::text;
use vstd::prelude::*;

verus! {

// ----------------------------------------------------------------- look-ups

/// A tunable is found by its key: the first of that key, if there is one.
pub proof fn tunables_are_found_by_key(s: Seq<TunableModel>, key: Seq<char>)
    ensures
        lists::finds(s, |t: TunableModel| t.key == key, kerneltune_screen::by_key(s, key)),
    decreases s.len(),
{
    if s.len() > 0 {
        tunables_are_found_by_key(s.drop_first(), key);
    }
    lists::lemma_finds(s, |t: TunableModel| t.key == key, |t: TunableModel| t, kerneltune_screen::by_key(s, key));
}

/// A staged change is found by its key.
pub proof fn staged_changes_are_found_by_key(s: Seq<StagedChangeModel>, key: Seq<char>)
    ensures
        lists::finds(s, |c: StagedChangeModel| c.key == key, kerneltune_screen::staged_of(s, key)),
    decreases s.len(),
{
    if s.len() > 0 {
        staged_changes_are_found_by_key(s.drop_first(), key);
    }
    lists::lemma_finds(
        s,
        |c: StagedChangeModel| c.key == key,
        |c: StagedChangeModel| c,
        kerneltune_screen::staged_of(s, key),
    );
}

/// A profile recommends the value that stands beside it.
pub proof fn recommendations_stand_beside_their_profile(t: TunableModel, p: int)
    ensures
        lists::finds_as(
            t.profiles,
            |v: ProfileValueModel| v.profile == p,
            |v: ProfileValueModel| v.value,
            t.recommended_for(p),
        ),
{
    lemma_recommendation(t.profiles, p);
}

proof fn lemma_recommendation(s: Seq<ProfileValueModel>, p: int)
    ensures
        lists::finds_as(
            s,
            |v: ProfileValueModel| v.profile == p,
            |v: ProfileValueModel| v.value,
            kerneltune_screen::recommendation(s, p),
        ),
    decreases s.len(),
{
    if s.len() > 0 {
        lemma_recommendation(s.drop_first(), p);
    }
    lists::lemma_finds(
        s,
        |v: ProfileValueModel| v.profile == p,
        |v: ProfileValueModel| v.value,
        kerneltune_screen::recommendation(s, p),
    );
}

/// The value of a parameter is the one that stands beside its key.
pub proof fn values_stand_beside_their_key(s: Seq<(Seq<char>, Seq<char>)>, key: Seq<char>)
    ensures
        lists::finds_as(
            s,
            |p: (Seq<char>, Seq<char>)| p.0 == key,
            |p: (Seq<char>, Seq<char>)| p.1,
            kerneltune_screen::value_of(s, key),
        ),
    decreases s.len(),
{
    if s.len() > 0 {
        values_stand_beside_their_key(s.drop_first(), key);
    }
    lists::lemma_finds(
        s,
        |p: (Seq<char>, Seq<char>)| p.0 == key,
        |p: (Seq<char>, Seq<char>)| p.1,
        kerneltune_screen::value_of(s, key),
    );
}

/// A value that is written is read back, and no other one changes.
pub proof fn values_read_as_written(
    s: Seq<(Seq<char>, Seq<char>)>,
    key: Seq<char>,
    value: Seq<char>,
    other: Seq<char>,
)
    ensures
        kerneltune_screen::value_of(kerneltune_screen::with_value(s, key, value), key) == Some(value),
        other != key ==> kerneltune_screen::value_of(kerneltune_screen::with_value(s, key, value), other)
            == kerneltune_screen::value_of(s, other),
    decreases s.len(),
{
    let w = kerneltune_screen::with_value(s, key, value);
    reveal_with_fuel(kerneltune_screen::value_of, 2);
    if s.len() > 0 {
        assert(s.drop_first() =~= s.skip(1));
        if s[0].0 == key {
            assert(w.drop_first() =~= s.drop_first());
        } else {
            values_read_as_written(s.drop_first(), key, value, other);
            assert(w.drop_first() =~= kerneltune_screen::with_value(s.drop_first(), key, value));
        }
    }
}

/// A change of a target is found by its key.
pub proof fn entries_are_found_by_target_and_key(s: Seq<HistoryEntryModel>, label: Seq<char>, key: Seq<char>)
    ensures
        lists::finds(
            s,
            |e: HistoryEntryModel| e.target == label && e.key == key,
            kerneltune_screen::entry_of(s, label, key),
        ),
    decreases s.len(),
{
    if s.len() > 0 {
        entries_are_found_by_target_and_key(s.drop_first(), label, key);
    }
    lists::lemma_finds(
        s,
        |e: HistoryEntryModel| e.target == label && e.key == key,
        |e: HistoryEntryModel| e,
        kerneltune_screen::entry_of(s, label, key),
    );
}

/// The catalog shows a tunable where it is of the category and has a
/// recommendation for the profile, as far as these are chosen.
pub proof fn filters_admit_what_they_name(t: TunableModel, profile: Option<usize>, category: Option<usize>)
    ensures
        kerneltune_screen::admitted(t, profile, category) <==> {
            &&& category matches Some(c) ==> t.category == c
            &&& profile matches Some(p) ==> exists|i: int|
                0 <= i < t.profiles.len() && (#[trigger] t.profiles[i]).profile == p
        },
{
    if let Some(p) = profile {
        recommendations_stand_beside_their_profile(t, p as int);
        let test = |v: ProfileValueModel| v.profile == p as int;
        if t.recommended_for(p as int) is Some {
            let i = choose|i: int| #[trigger] first_at(t.profiles, test, i);
            assert(t.profiles[i].profile == p);
        } else {
            assert forall|i: int| 0 <= i < t.profiles.len() implies (#[trigger] t.profiles[i]).profile != p by {
                assert(!test(t.profiles[i]));
            }
        }
    }
}

// ----------------------------------------------------------------- applying

/// Whether a tunable of the catalog has this key.
pub open spec fn known(tunables: Seq<TunableModel>, key: Seq<char>) -> bool {
    exists|i: int| 0 <= i < tunables.len() && (#[trigger] tunables[i]).key == key
}

/// The staged changes of parameters that the catalog knows.
pub open spec fn known_changes(staged: Seq<StagedChangeModel>, tunables: Seq<TunableModel>) -> Seq<StagedChangeModel> {
    staged.filter(|c: StagedChangeModel| known(tunables, c.key))
}

proof fn lemma_known(tunables: Seq<TunableModel>, key: Seq<char>)
    ensures
        kerneltune_screen::by_key(tunables, key) is Some <==> known(tunables, key),
        kerneltune_screen::by_key(tunables, key) matches Some(t) ==> t.key == key,
{
    let test = |t: TunableModel| t.key == key;
    tunables_are_found_by_key(tunables, key);
    if kerneltune_screen::by_key(tunables, key) is Some {
        let i = choose|i: int| #[trigger] first_at(tunables, test, i);
        assert(tunables[i].key == key);
    } else {
        assert forall|i: int| 0 <= i < tunables.len() implies (#[trigger] tunables[i]).key != key by {
            assert(!test(tunables[i]));
        }
    }
}

/// Every staged change of a known parameter is applied, in order, with its
/// own value and its own choice of persistence, and nothing else is. The
/// record says that a change persists where that was chosen or where it
/// always does.
pub proof fn every_staged_change_is_applied(staged: Seq<StagedChangeModel>, tunables: Seq<TunableModel>)
    ensures
        ({
            let items = kerneltune_screen::to_apply(staged, tunables);
            let changes = known_changes(staged, tunables);
            &&& items.len() == changes.len()
            &&& forall|i: int|
                0 <= i < items.len() ==> {
                    &&& (#[trigger] items[i]).key == changes[i].key
                    &&& items[i].previous == changes[i].previous
                    &&& items[i].value == changes[i].value
                    &&& items[i].persist == changes[i].persist
                    &&& items[i].recorded <==> changes[i].persist || (kerneltune_screen::by_key(
                        tunables,
                        changes[i].key,
                    ) matches Some(t) && t.always_persists)
                }
        }),
    decreases staged.len(),
{
    reveal(Seq::filter);
    if staged.len() > 0 {
        every_staged_change_is_applied(staged.drop_last(), tunables);
        lemma_known(tunables, staged.last().key);
        let items = kerneltune_screen::to_apply(staged, tunables);
        let changes = known_changes(staged, tunables);
        let front = kerneltune_screen::to_apply(staged.drop_last(), tunables);
        let part = known_changes(staged.drop_last(), tunables);
        assert forall|i: int| 0 <= i < front.len() implies (#[trigger] items[i]) == front[i] && changes[i]
            == part[i] by {}
    }
}

/// Where the catalog knows every staged change, the changes that are applied
/// are the staged ones, one for one.
pub proof fn known_changes_are_all_applied(staged: Seq<StagedChangeModel>, tunables: Seq<TunableModel>, i: int)
    requires
        forall|k: int| 0 <= k < staged.len() ==> known(tunables, (#[trigger] staged[k]).key),
        0 <= i < staged.len(),
    ensures
        ({
            let items = kerneltune_screen::to_apply(staged, tunables);
            &&& items.len() == staged.len()
            &&& items[i].key == staged[i].key
            &&& items[i].previous == staged[i].previous
            &&& items[i].value == staged[i].value
            &&& items[i].persist == staged[i].persist
            &&& staged[i].persist ==> items[i].recorded
        }),
{
    every_staged_change_is_applied(staged, tunables);
    lists::lemma_filter_all(staged, |c: StagedChangeModel| known(tunables, c.key));
}

/// Whether a request applies the staged changes to the target of the form.
pub open spec fn applies_what_is_staged(s: KernelTuneScreenModel, r: RequestModel) -> bool {
    let changes = known_changes(s.staged, s.catalog.tunables);
    &&& r matches RequestModel::Apply { target, items }
    &&& target == s.target_tab.target()
    &&& items.len() == changes.len()
    &&& forall|i: int|
        0 <= i < items.len() ==> {
            &&& (#[trigger] items[i]).key == changes[i].key
            &&& items[i].previous == changes[i].previous
            &&& items[i].value == changes[i].value
            &&& items[i].persist == changes[i].persist
            &&& changes[i].persist ==> items[i].recorded
        }
}

/// Answering the question with Enter applies all that is staged, and answers
/// it. Esc answers it and applies nothing; other keys do nothing.
pub proof fn the_question_is_answered_by_enter_and_esc(s: KernelTuneScreenModel, key: KeyEvent)
    requires
        s.log.alert is None,
        s.confirm_apply is Some,
    ensures
        ({
            let t = s.on_key(key).0;
            &&& key.code == KeyCode::Enter ==> {
                &&& t.requests.len() == s.requests.len() + 1
                &&& applies_what_is_staged(s, t.requests.last())
                &&& t == (KernelTuneScreenModel { requests: s.requests.push(t.requests.last()), confirm_apply: None, ..s })
            }
            &&& key.code == KeyCode::Esc ==> t == (KernelTuneScreenModel { confirm_apply: None, ..s })
            &&& key.code != KeyCode::Enter && key.code != KeyCode::Esc ==> t == s
        }),
{
    reveal(KernelTuneScreenModel::on_confirm_key);
    every_staged_change_is_applied(s.staged, s.catalog.tunables);
}

/// Whether a staged change is of a parameter that is not safe.
pub open spec fn is_risky(tunables: Seq<TunableModel>, c: StagedChangeModel) -> bool {
    kerneltune_screen::by_key(tunables, c.key) matches Some(t) && t.risk != Risk::Safe
}

/// The question lists the risky changes, each by title and risk, in order.
pub proof fn the_question_lists_the_risky_changes(staged: Seq<StagedChangeModel>, tunables: Seq<TunableModel>)
    ensures
        ({
            let lines = kerneltune_screen::risky(staged, tunables);
            let changes = staged.filter(|c: StagedChangeModel| is_risky(tunables, c));
            &&& lines.len() == changes.len()
            &&& forall|i: int|
                0 <= i < lines.len() ==> (kerneltune_screen::by_key(tunables, changes[i].key) matches Some(t) && {
                    &&& t.title.is_prefix_of(#[trigger] lines[i])
                    &&& text::ends_in(lines[i], t.risk.name())
                })
        }),
    decreases staged.len(),
{
    reveal(Seq::filter);
    if staged.len() > 0 {
        let front = staged.drop_last();
        the_question_lists_the_risky_changes(front, tunables);
        let lines = kerneltune_screen::risky(staged, tunables);
        let part = kerneltune_screen::risky(front, tunables);
        if is_risky(tunables, staged.last()) {
            let t = kerneltune_screen::by_key(tunables, staged.last().key)->0;
            let line = t.title + " — "@ + t.risk.name();
            assert(line.take(t.title.len() as int) =~= t.title);
            assert(line.skip(line.len() - t.risk.name().len()) =~= t.risk.name());
            assert(lines == part.push(line));
        }
    }
}

/// Apply All, on a connected target with changes staged, applies them at once
/// where none is risky, and asks first where one is. Without a target or a
/// change it tells so. Nothing else changes.
pub proof fn apply_all_applies_or_asks(s: KernelTuneScreenModel, key: KeyEvent)
    requires
        s.log.alert is None,
        s.confirm_apply is None,
        s.catalog_tab.detail is None,
        s.tab == Tab::Review,
        s.review_tab.field == ReviewField::BtnApplyAll,
        key.code == KeyCode::Enter,
    ensures
        ({
            let t = s.on_key(key).0;
            let ready = s.staged.len() > 0 && s.target_label.len() > 0;
            let risk = exists|i: int| 0 <= i < s.staged.len() && is_risky(s.catalog.tunables, #[trigger] s.staged[i]);
            &&& !ready ==> t == (KernelTuneScreenModel { log: t.log, ..s }) && t.log.alert is Some
            &&& ready && risk ==> t == (KernelTuneScreenModel { confirm_apply: t.confirm_apply, ..s })
                && t.confirm_apply is Some && t.confirm_apply->0.lines.len() > 0
            &&& ready && !risk ==> {
                &&& t.requests.len() == s.requests.len() + 1
                &&& applies_what_is_staged(s, t.requests.last())
                &&& t == (KernelTuneScreenModel { requests: s.requests.push(t.requests.last()), ..s })
            }
        }),
{
    reveal(KernelTuneScreenModel::on_tab_key);
    reveal(KernelTuneScreenModel::on_review_key);
    reveal(KernelTuneScreenModel::on_staged_key);
    reveal(KernelTuneScreenModel::request_apply);
    every_staged_change_is_applied(s.staged, s.catalog.tunables);
    crate::kerneltune_laws::questions_are_raised_by_risk(s.staged, s.catalog.tunables);
    let risk = exists|i: int| 0 <= i < s.staged.len() && is_risky(s.catalog.tunables, #[trigger] s.staged[i]);
    if kerneltune_screen::risky(s.staged, s.catalog.tunables).len() > 0 {
        let i = choose|i: int|
            0 <= i < s.staged.len() && (kerneltune_screen::by_key(s.catalog.tunables, (#[trigger] s.staged[i]).key)
                matches Some(t) && t.risk != Risk::Safe);
        assert(is_risky(s.catalog.tunables, s.staged[i]));
    }
}

/// What was applied is the current value from then on and is no longer
/// staged; it is recorded under the connected target with what it was before.
/// Other values and other changes stay.
pub proof fn an_applied_change_is_settled(
    s: KernelTuneScreenModel,
    item: ApplyItemModel,
    message: Seq<char>,
    other: Seq<char>,
)
    ensures
        ({
            let t = s.on_msg(MsgModel::Applied { item, message });
            &&& kerneltune_screen::value_of(t.current_values, item.key) == Some(item.value)
            &&& other != item.key ==> kerneltune_screen::value_of(t.current_values, other)
                == kerneltune_screen::value_of(s.current_values, other)
            &&& t.staged == s.staged.filter(|c: StagedChangeModel| c.key != item.key)
            &&& !known(s.catalog.tunables, item.key) ==> t.requests == s.requests
            &&& kerneltune_screen::by_key(s.catalog.tunables, item.key) matches Some(u) ==> t.requests
                == s.requests.push(
                RequestModel::Record {
                    label: s.target_label,
                    key: item.key,
                    title: u.title,
                    previous: item.previous,
                    value: item.value,
                    persisted: item.recorded,
                },
            )
            &&& t.log.history.len() == s.log.history.len() + 1 && t.log.history.last().0
            &&& t == (KernelTuneScreenModel {
                current_values: t.current_values,
                staged: t.staged,
                requests: t.requests,
                log: t.log,
                ..s
            })
        }),
{
    values_read_as_written(s.current_values, item.key, item.value, other);
    lemma_known(s.catalog.tunables, item.key);
}

// ------------------------------------------------------------------ staging

/// Staging a value changes no other staged change.
pub proof fn staging_keeps_the_other_changes(
    s: Seq<StagedChangeModel>,
    key: Seq<char>,
    previous: Seq<char>,
    value: Seq<char>,
)
    ensures
        ({
            let t = kerneltune_screen::staged_with(s, key, previous, value);
            &&& t.drop_last() == s.filter(|c: StagedChangeModel| c.key != key)
            &&& t.last().key == key
            &&& t.last().value == value
            &&& t.last().previous == previous
            &&& t.last().persist <==> (kerneltune_screen::staged_of(s, key) matches Some(c) && c.persist)
        }),
{
    let rest = s.filter(|c: StagedChangeModel| c.key != key);
    assert(kerneltune_screen::staged_with(s, key, previous, value).drop_last() =~= rest);
}

/// Stage stages what was typed for the parameter of the window, over the
/// value that it has now, and closes the window. Without a value nothing is
/// staged.
pub proof fn the_window_stages_what_was_typed(s: KernelTuneScreenModel, m: DetailModalModel, key: KeyEvent)
    requires
        s.log.alert is None,
        s.confirm_apply is None,
        s.tab == Tab::Catalog,
        s.catalog_tab.detail == Some(m),
        m.field == DetailField::BtnStage,
        key.code == KeyCode::Enter,
        known(s.catalog.tunables, m.key),
    ensures
        ({
            let t = s.on_key(key).0;
            let typed = text::trimmed(m.value.text);
            &&& t.catalog_tab == (CatalogTabModel { detail: None, ..s.catalog_tab })
            &&& t.requests == s.requests
            &&& typed.len() == 0 ==> t.staged == s.staged && t.log.alert is Some
            &&& typed.len() > 0 ==> {
                &&& t.staged.drop_last() == s.staged.filter(|c: StagedChangeModel| c.key != m.key)
                &&& t.staged.len() > 0
                &&& t.staged.last().key == m.key
                &&& t.staged.last().value == typed
                &&& t.staged.last().previous == match kerneltune_screen::value_of(s.current_values, m.key) {
                    Some(v) => v,
                    None => Seq::empty(),
                }
                &&& t.log.alert is None
            }
        }),
{
    reveal(KernelTuneScreenModel::on_tab_key);
    reveal(KernelTuneScreenModel::on_catalog_key);
    reveal(KernelTuneScreenModel::detail_done);
    lemma_known(s.catalog.tunables, m.key);
    staging_keeps_the_other_changes(
        s.staged,
        m.key,
        kerneltune_screen::value_or_empty(s.current_values, m.key),
        text::trimmed(m.value.text),
    );
}

/// Cancel and Esc close the window and stage nothing.
pub proof fn the_window_can_be_left(s: KernelTuneScreenModel, m: DetailModalModel, key: KeyEvent)
    requires
        s.log.alert is None,
        s.confirm_apply is None,
        s.tab == Tab::Catalog,
        s.catalog_tab.detail == Some(m),
        key.code == KeyCode::Esc || (key.code == KeyCode::Enter && m.field == DetailField::BtnCancel),
    ensures
        s.on_key(key) == (KernelTuneScreenModel {
            catalog_tab: CatalogTabModel { detail: None, ..s.catalog_tab },
            ..s
        }, false),
{
    reveal(KernelTuneScreenModel::on_tab_key);
    reveal(KernelTuneScreenModel::on_catalog_key);
    reveal(KernelTuneScreenModel::detail_done);
}

/// Use Recommended puts in what the chosen profile recommends for the
/// parameter of the window, and stages nothing.
pub proof fn the_recommendation_is_put_in(s: KernelTuneScreenModel, m: DetailModalModel, p: usize, t: TunableModel, key: KeyEvent)
    requires
        s.log.alert is None,
        s.confirm_apply is None,
        s.tab == Tab::Catalog,
        s.catalog_tab.detail == Some(m),
        m.field == DetailField::BtnUseRecommended,
        key.code == KeyCode::Enter,
        s.catalog_tab.profile_filter == Some(p),
        kerneltune_screen::by_key(s.catalog.tunables, m.key) == Some(t),
        t.recommended_for(p as int) is Some,
    ensures
        ({
            let after = s.on_key(key).0;
            &&& after.catalog_tab.detail matches Some(w)
            &&& w.value.text == t.recommended_for(p as int)->0
            &&& w.key == m.key
            &&& after == (KernelTuneScreenModel { catalog_tab: after.catalog_tab, ..s })
        }),
{
    reveal(KernelTuneScreenModel::on_tab_key);
    reveal(KernelTuneScreenModel::on_catalog_key);
    reveal(KernelTuneScreenModel::detail_done);
}

/// Typing in the window changes its value alone.
pub proof fn typing_in_the_window_changes_its_value(s: KernelTuneScreenModel, m: DetailModalModel, c: char)
    requires
        s.log.alert is None,
        s.confirm_apply is None,
        s.tab == Tab::Catalog,
        s.catalog_tab.detail == Some(m),
    ensures
        ({
            let t = s.on_key(KeyEvent { code: KeyCode::Char(c), control: false }).0;
            &&& t.catalog_tab.detail matches Some(w)
            &&& w.value.text == if m.field == DetailField::Value {
                m.value.text.insert(m.value.cursor, c)
            } else {
                m.value.text
            }
            &&& w.key == m.key
            &&& w.field == m.field
            &&& t.staged == s.staged
            &&& t.requests == s.requests
        }),
{
    reveal(KernelTuneScreenModel::on_tab_key);
    reveal(KernelTuneScreenModel::on_catalog_key);
    reveal(KernelTuneScreenModel::detail_done);
}

/// Enter on a row of the catalog opens the window of the parameter in that
/// row. It starts with the staged value, else with the current one, else with
/// the one that the chosen profile recommends.
pub proof fn a_row_opens_its_parameter(s: KernelTuneScreenModel, key: KeyEvent)
    requires
        s.log.alert is None,
        s.confirm_apply is None,
        s.catalog_tab.detail is None,
        s.tab == Tab::Catalog,
        s.catalog_tab.field == CatalogField::Table,
        0 <= s.catalog_tab.selected_row < s.catalog_tab.filtered(s.catalog).len(),
        key.code == KeyCode::Enter,
    ensures
        ({
            let t = s.on_key(key).0;
            let u = s.catalog_tab.filtered(s.catalog)[s.catalog_tab.selected_row];
            let staged = kerneltune_screen::staged_of(s.staged, u.key);
            let current = kerneltune_screen::value_of(s.current_values, u.key);
            &&& t == (KernelTuneScreenModel {
                catalog_tab: CatalogTabModel { detail: t.catalog_tab.detail, ..s.catalog_tab },
                ..s
            })
            &&& t.catalog_tab.detail matches Some(w)
            &&& w.key == u.key
            &&& w.field == DetailField::Value
            &&& staged is Some && staged->0.value.len() > 0 ==> w.value.text == staged->0.value
            &&& staged is None && current is Some && current->0.len() > 0 ==> w.value.text == current->0
            &&& staged is None && current is None && (s.catalog_tab.profile_filter matches Some(p)
                && u.recommended_for(p as int) is Some) ==> w.value.text == u.recommended_for(
                s.catalog_tab.profile_filter->0 as int,
            )->0
        }),
{
    reveal(KernelTuneScreenModel::on_tab_key);
    reveal(KernelTuneScreenModel::on_catalog_key);
    reveal(KernelTuneScreenModel::on_catalog_field_key);
    reveal(KernelTuneScreenModel::open_detail);
}

/// Space or Enter turns whether the selected change persists, and nothing
/// else; Delete takes that change away.
pub proof fn the_selected_change_is_turned_or_dropped(s: KernelTuneScreenModel, key: KeyEvent, k: int)
    requires
        s.log.alert is None,
        s.confirm_apply is None,
        s.catalog_tab.detail is None,
        s.tab == Tab::Review,
        s.review_tab.field == ReviewField::Table,
        0 <= s.review_tab.selected_row < s.staged.len(),
        0 <= k < s.staged.len(),
    ensures
        ({
            let t = s.on_key(key).0;
            let i = s.review_tab.selected_row;
            &&& key.code == KeyCode::Enter || (key.code == KeyCode::Char(' ')) ==> {
                &&& t.staged.len() == s.staged.len()
                &&& t.staged[k].persist == if k == i {
                    !s.staged[k].persist
                } else {
                    s.staged[k].persist
                }
                &&& t.staged[k].key == s.staged[k].key && t.staged[k].value == s.staged[k].value
                &&& t.staged[k].previous == s.staged[k].previous
                &&& t == (KernelTuneScreenModel { staged: t.staged, ..s })
            }
            &&& key.code == KeyCode::Delete || key.code == KeyCode::Backspace ==> {
                &&& t.staged == s.staged.take(i) + s.staged.skip(i + 1)
                &&& t.staged.len() > 0 ==> 0 <= t.review_tab.selected_row < t.staged.len()
                &&& t == (KernelTuneScreenModel { staged: t.staged, review_tab: t.review_tab, ..s })
            }
        }),
{
    reveal(KernelTuneScreenModel::on_tab_key);
    reveal(KernelTuneScreenModel::on_review_key);
    reveal(KernelTuneScreenModel::on_staged_key);
    reveal(KernelTuneScreenModel::turn_persist);
    reveal(KernelTuneScreenModel::unstage);
    let i = s.review_tab.selected_row;
    assert(s.staged.remove(i) =~= s.staged.take(i) + s.staged.skip(i + 1));
}

/// The two other buttons of the review: one turns all changes alike, the other
/// drops them all.
pub proof fn the_review_buttons_take_all_changes(s: KernelTuneScreenModel, key: KeyEvent, k: int)
    requires
        s.log.alert is None,
        s.confirm_apply is None,
        s.catalog_tab.detail is None,
        s.tab == Tab::Review,
        key.code == KeyCode::Enter,
    ensures
        ({
            let t = s.on_key(key).0;
            &&& s.review_tab.field == ReviewField::BtnClearAll ==> {
                &&& t.staged.len() == 0
                &&& t == (KernelTuneScreenModel { staged: t.staged, review_tab: t.review_tab, ..s })
            }
            &&& s.review_tab.field == ReviewField::BtnPersistAll && 0 <= k < s.staged.len() ==> {
                &&& t.staged.len() == s.staged.len()
                &&& t.staged[k].persist <==> exists|i: int| 0 <= i < s.staged.len() && !(#[trigger] s.staged[i]).persist
                &&& t.staged[k].key == s.staged[k].key && t.staged[k].value == s.staged[k].value
                &&& t.staged[k].previous == s.staged[k].previous
                &&& t == (KernelTuneScreenModel { staged: t.staged, ..s })
            }
        }),
{
    reveal(KernelTuneScreenModel::on_tab_key);
    reveal(KernelTuneScreenModel::on_review_key);
    reveal(KernelTuneScreenModel::on_staged_key);
    reveal(KernelTuneScreenModel::turn_all);
}

/// Applying a profile stages what it recommends over the values of now,
/// whatever the filters show, goes on to the review and applies nothing. The
/// changes of other parameters stay.
pub proof fn a_profile_is_staged_for_review(s: KernelTuneScreenModel, key: KeyEvent)
    requires
        s.log.alert is None,
        s.confirm_apply is None,
        s.catalog_tab.detail is None,
        s.tab == Tab::Catalog,
        s.catalog_tab.field == CatalogField::BtnApplyProfile,
        key.code == KeyCode::Enter,
    ensures
        ({
            let t = s.on_key(key).0;
            &&& t.requests == s.requests
            &&& s.catalog_tab.profile_filter is None ==> t.staged == s.staged && t.tab == s.tab && t.log.alert is Some
            &&& s.catalog_tab.profile_filter matches Some(p) ==> {
                &&& t.tab == Tab::Review
                &&& t.staged == kerneltune_screen::profile_staged(
                    s.catalog.tunables,
                    s.staged,
                    s.current_values,
                    p as int,
                )
                &&& t == (KernelTuneScreenModel { staged: t.staged, tab: t.tab, log: t.log, ..s })
            }
        }),
{
    reveal(KernelTuneScreenModel::on_tab_key);
    reveal(KernelTuneScreenModel::on_catalog_key);
    reveal(KernelTuneScreenModel::on_catalog_field_key);
    reveal(KernelTuneScreenModel::apply_profile);
}

/// A change that a profile does not recommend stays as it was staged.
pub proof fn a_profile_keeps_other_changes(
    tunables: Seq<TunableModel>,
    staged: Seq<StagedChangeModel>,
    values: Seq<(Seq<char>, Seq<char>)>,
    p: int,
    i: int,
)
    requires
        0 <= i < staged.len(),
        forall|k: int|
            0 <= k < tunables.len() && (#[trigger] tunables[k]).key == staged[i].key ==> tunables[k].recommended_for(p)
                is None,
    ensures
        kerneltune_screen::profile_staged(tunables, staged, values, p).contains(staged[i]),
    decreases tunables.len(),
{
    if tunables.len() == 0 {
        assert(staged[i] == kerneltune_screen::profile_staged(tunables, staged, values, p)[i]);
    } else {
        let front = tunables.drop_last();
        let before = kerneltune_screen::profile_staged(front, staged, values, p);
        let all = kerneltune_screen::profile_staged(tunables, staged, values, p);
        let t = tunables.last();
        assert forall|k: int| 0 <= k < front.len() && (#[trigger] front[k]).key == staged[i].key implies front[k]
            .recommended_for(p) is None by {
            assert(tunables[k] == front[k]);
        }
        a_profile_keeps_other_changes(front, staged, values, p, i);
        let k = choose|k: int| 0 <= k < before.len() && before[k] == staged[i];
        if t.recommended_for(p) is Some {
            assert(tunables[tunables.len() - 1].key != staged[i].key);
            let keep = |c: StagedChangeModel| c.key != t.key;
            lists::lemma_filter_keeps(before, keep, k);
            let w = kerneltune_screen::without_key(before, t.key);
            let j = choose|j: int| 0 <= j < w.len() && w[j] == before[k];
            assert(all[j] == staged[i]);
        }
    }
}

/// Whatever a profile stages was staged before, or is a recommendation of it
/// over the current value.
pub proof fn a_profile_stages_nothing_else(
    tunables: Seq<TunableModel>,
    staged: Seq<StagedChangeModel>,
    values: Seq<(Seq<char>, Seq<char>)>,
    p: int,
    i: int,
)
    requires
        0 <= i < kerneltune_screen::profile_staged(tunables, staged, values, p).len(),
    ensures
        ({
            let c = kerneltune_screen::profile_staged(tunables, staged, values, p)[i];
            ||| staged.contains(c)
            ||| exists|k: int| {
                &&& 0 <= k < tunables.len()
                &&& (#[trigger] tunables[k]).key == c.key
                &&& tunables[k].recommended_for(p) == Some(c.value)
                &&& c.previous == match kerneltune_screen::value_of(values, c.key) {
                    Some(v) => v,
                    None => Seq::empty(),
                }
            }
        }),
    decreases tunables.len(),
{
    if tunables.len() > 0 {
        let front = tunables.drop_last();
        let before = kerneltune_screen::profile_staged(front, staged, values, p);
        let all = kerneltune_screen::profile_staged(tunables, staged, values, p);
        let t = tunables.last();
        let c = all[i];
        if t.recommended_for(p) is Some && i == all.len() - 1 {
            assert(tunables[tunables.len() - 1].key == c.key);
        } else {
            if t.recommended_for(p) is Some {
                let keep = |c: StagedChangeModel| c.key != t.key;
                lists::lemma_filter_part(before, keep, i);
            }
            assert(before.contains(c)) by {
                if t.recommended_for(p) is None {
                    assert(before[i] == c);
                }
            }
            let j = choose|j: int| 0 <= j < before.len() && before[j] == c;
            a_profile_stages_nothing_else(front, staged, values, p, j);
            if !staged.contains(c) {
                let k = choose|k: int| {
                    &&& 0 <= k < front.len()
                    &&& (#[trigger] front[k]).key == c.key
                    &&& front[k].recommended_for(p) == Some(c.value)
                    &&& c.previous == match kerneltune_screen::value_of(values, c.key) {
                        Some(v) => v,
                        None => Seq::empty(),
                    }
                };
                assert(tunables[k] == front[k]);
            }
        }
    }
}

// ---------------------------------------------------------------- reverting

/// Enter reverts the change in the selected row of the connected target,
/// where the catalog knows it.
pub proof fn a_row_is_reverted(s: KernelTuneScreenModel, key: KeyEvent)
    requires
        s.log.alert is None,
        s.confirm_apply is None,
        s.catalog_tab.detail is None,
        s.tab == Tab::Revert,
        s.target_label.len() > 0,
        0 <= s.revert_tab.selected_row < s.entries().len(),
        key.code == KeyCode::Enter,
    ensures
        ({
            let t = s.on_key(key).0;
            let row = s.history_entries.filter(|e: HistoryEntryModel| e.target == s.target_label)[s.revert_tab.selected_row];
            &&& t == (KernelTuneScreenModel { requests: t.requests, ..s })
            &&& !known(s.catalog.tunables, row.key) ==> t.requests == s.requests
            &&& known(s.catalog.tunables, row.key) ==> {
                &&& t.requests.len() == s.requests.len() + 1
                &&& t.requests == s.requests.push(t.requests.last())
                &&& t.requests.last() matches RequestModel::RevertOne { target, label, entry }
                &&& target == s.target_tab.target()
                &&& label == s.target_label
                &&& entry.target == s.target_label
                &&& entry.key == row.key
                &&& s.history_entries.contains(entry)
            }
        }),
{
    reveal(KernelTuneScreenModel::on_tab_key);
    reveal(KernelTuneScreenModel::on_revert_key);
    reveal(KernelTuneScreenModel::revert_row);
    reveal(KernelTuneScreenModel::revert_one);
    let label = s.target_label;
    let i = s.revert_tab.selected_row;
    let ours = s.entries();
    assert(ours == s.history_entries.filter(|e: HistoryEntryModel| e.target == s.target_label));
    let key = ours[i].key;
    lists::lemma_filter_part(s.history_entries, |e: HistoryEntryModel| e.target == label, i);
    entries_are_found_by_target_and_key(s.history_entries, label, key);
    let test = |e: HistoryEntryModel| e.target == label && e.key == key;
    if kerneltune_screen::entry_of(s.history_entries, label, key) is None {
        let k = choose|k: int| 0 <= k < s.history_entries.len() && s.history_entries[k] == ours[i];
        assert(test(s.history_entries[k]));
    } else {
        let e = kerneltune_screen::entry_of(s.history_entries, label, key)->0;
        let k = choose|k: int| #[trigger] first_at(s.history_entries, test, k) && s.history_entries[k] == e;
        assert(s.history_entries[k] == e);
        lemma_known(s.catalog.tunables, e.key);
    }
}

/// `a` reverts every change of the connected target that the catalog knows,
/// and no change of another one.
pub proof fn all_changes_of_the_target_are_reverted(s: KernelTuneScreenModel, key: KeyEvent, e: HistoryEntryModel)
    requires
        s.log.alert is None,
        s.confirm_apply is None,
        s.catalog_tab.detail is None,
        s.tab == Tab::Revert,
        key.code == KeyCode::Char('a') || key.code == KeyCode::Char('A'),
        s.target_label.len() > 0,
        s.entries().len() > 0,
    ensures
        ({
            let t = s.on_key(key).0;
            &&& t.requests.len() == s.requests.len() + 1
            &&& t == (KernelTuneScreenModel { requests: s.requests.push(t.requests.last()), ..s })
            &&& t.requests.last() matches RequestModel::RevertAll { target, label, entries }
            &&& target == s.target_tab.target()
            &&& label == s.target_label
            &&& entries.contains(e) <==> {
                &&& s.history_entries.contains(e)
                &&& e.target == s.target_label
                &&& known(s.catalog.tunables, e.key)
            }
        }),
{
    reveal(KernelTuneScreenModel::on_tab_key);
    reveal(KernelTuneScreenModel::on_revert_key);
    reveal(KernelTuneScreenModel::revert_all);
    let label = s.target_label;
    let ours = s.entries();
    let tunables = s.catalog.tunables;
    let named = |e: HistoryEntryModel| kerneltune_screen::by_key(tunables, e.key) is Some;
    let here = |e: HistoryEntryModel| e.target == label;
    let entries = kerneltune_screen::known_entries(ours, tunables);
    lemma_known(tunables, e.key);
    if entries.contains(e) {
        let i = choose|i: int| 0 <= i < entries.len() && entries[i] == e;
        lists::lemma_filter_part(ours, named, i);
        let k = choose|k: int| 0 <= k < ours.len() && ours[k] == e;
        lists::lemma_filter_part(s.history_entries, here, k);
    }
    if s.history_entries.contains(e) && here(e) && named(e) {
        let i = choose|i: int| 0 <= i < s.history_entries.len() && s.history_entries[i] == e;
        lists::lemma_filter_keeps(s.history_entries, here, i);
        let k = choose|k: int| 0 <= k < ours.len() && ours[k] == e;
        lists::lemma_filter_keeps(ours, named, k);
    }
}

/// Reverting needs a connection, and tells so.
pub proof fn reverting_needs_a_connection(s: KernelTuneScreenModel)
    requires
        s.target_label.len() == 0,
    ensures
        s.revert_all() == (KernelTuneScreenModel { log: s.revert_all().log, ..s }),
        s.revert_all().log.alert is Some,
{
    reveal(KernelTuneScreenModel::revert_all);
}

/// A reverted parameter has its earlier value again, and its record is
/// forgotten.
pub proof fn a_reverted_change_is_forgotten(
    s: KernelTuneScreenModel,
    key: Seq<char>,
    label: Seq<char>,
    previous: Seq<char>,
    other: Seq<char>,
)
    ensures
        ({
            let t = s.on_msg(MsgModel::Reverted { key, label, previous });
            &&& kerneltune_screen::value_of(t.current_values, key) == Some(previous)
            &&& other != key ==> kerneltune_screen::value_of(t.current_values, other) == kerneltune_screen::value_of(
                s.current_values,
                other,
            )
            &&& t.requests == s.requests.push(RequestModel::Forget { label, key })
            &&& t == (KernelTuneScreenModel {
                current_values: t.current_values,
                requests: t.requests,
                log: t.log,
                ..s
            })
        }),
{
    values_read_as_written(s.current_values, key, previous, other);
}

// --------------------------------------------------------------- connecting

/// Connect contacts the target of the form, or tells that the host is missing.
pub proof fn connecting_contacts_the_target(s: KernelTuneScreenModel, key: KeyEvent)
    requires
        s.log.alert is None,
        s.confirm_apply is None,
        s.catalog_tab.detail is None,
        !s.target_tab.picking(),
        s.tab == Tab::Target,
        s.target_tab.field == TargetField::BtnConnect,
        key.code == KeyCode::Enter,
    ensures
        ({
            let t = s.on_key(key).0;
            let missing = s.target_tab.is_remote && text::trimmed(s.target_tab.ssh_host.text).len() == 0;
            &&& missing ==> t == (KernelTuneScreenModel { log: t.log, ..s }) && t.log.alert is Some
            &&& !missing ==> t == (KernelTuneScreenModel {
                target_tab: TargetTabModel { connecting: true, ..s.target_tab },
                requests: s.requests.push(RequestModel::Connect(s.target_tab.target())),
                ..s
            })
        }),
{
    reveal(KernelTuneScreenModel::on_tab_key);
    reveal(KernelTuneScreenModel::on_target_key);
    reveal(KernelTuneScreenModel::target_done);
    reveal(KernelTuneScreenModel::connect);
}

/// Enter on the host and on the key path asks for the hosts and for the
/// directory of the key.
pub proof fn the_target_form_asks_for_lists(s: KernelTuneScreenModel, key: KeyEvent)
    requires
        s.log.alert is None,
        s.confirm_apply is None,
        s.catalog_tab.detail is None,
        !s.target_tab.picking(),
        s.tab == Tab::Target,
        key.code == KeyCode::Enter,
    ensures
        s.target_tab.field == TargetField::SshHost ==> s.on_key(key).0 == (KernelTuneScreenModel {
            requests: s.requests.push(RequestModel::ListHosts),
            ..s
        }),
        s.target_tab.field == TargetField::SshKeyPath ==> s.on_key(key).0 == (KernelTuneScreenModel {
            requests: s.requests.push(RequestModel::BrowseKey(s.target_tab.ssh_key_path.text)),
            ..s
        }),
{
    reveal(KernelTuneScreenModel::on_tab_key);
    reveal(KernelTuneScreenModel::on_target_key);
    reveal(KernelTuneScreenModel::target_done);
}

/// What a connection brings replaces what was known of the target before; a
/// failed one is told and changes nothing else.
pub proof fn a_connection_brings_its_target(
    s: KernelTuneScreenModel,
    label: Seq<char>,
    info: TargetInfoModel,
    values: Seq<(Seq<char>, Seq<char>)>,
    error: Seq<char>,
)
    ensures
        ({
            let t = s.on_msg(MsgModel::Connected { label, info, values });
            &&& t.target_label == label
            &&& t.target_info == Some(info)
            &&& t.current_values == values
            &&& t.staged.len() == 0
            &&& !t.target_tab.connecting
            &&& t.history_entries == s.history_entries && t.requests == s.requests && t.tab == s.tab
        }),
        ({
            let t = s.on_msg(MsgModel::ConnectFailed(error));
            &&& !t.target_tab.connecting
            &&& t.log.history.len() == s.log.history.len() + 1 && !t.log.history.last().0
            &&& t == (KernelTuneScreenModel { target_tab: t.target_tab, log: t.log, ..s })
        }),
{
}

// -------------------------------------------------------------------- lines

/// What went wrong is told as a failure, and all else as a success.
pub proof fn failures_are_told_as_failures(m: MsgModel)
    ensures
        m.line() matches Some((ok, line)) ==> (ok <==> !(m is ConnectFailed || m is SessionFailed || m is ApplyFailed
            || m is RevertFailed)),
        m is ConnectFailed || m is SessionFailed || m is ApplyFailed || m is RevertFailed || m is Applied || m
            is Reverted || m is Connected || m is ApplyDone || m is RevertDone ==> m.line() is Some,
{
}

/// The line of an applied change names the parameter first, and says that it
/// persists exactly where that is recorded.
pub proof fn an_applied_change_is_told(item: ApplyItemModel, message: Seq<char>)
    ensures
        ({
            let (ok, line) = MsgModel::Applied { item, message }.line()->0;
            let change = item.key + ": "@ + item.previous + " -> "@ + item.value;
            &&& change.is_prefix_of(line)
            &&& item.recorded ==> (change + " [persisted]"@).is_prefix_of(line)
            &&& !item.recorded ==> (change + " [this session only]"@).is_prefix_of(line)
        }),
{
    let (ok, line) = MsgModel::Applied { item, message }.line()->0;
    let change = item.key + ": "@ + item.previous + " -> "@ + item.value;
    let mark = if item.recorded {
        " [persisted]"@
    } else {
        " [this session only]"@
    };
    assert(line.take(change.len() as int) =~= change);
    assert(line.take((change + mark).len() as int) =~= change + mark);
}

/// The time since a change is told in the largest unit that fits, rounded
/// down.
pub proof fn times_are_told_in_the_largest_unit(then: nat, now: u64)
    requires
        then <= now,
    ensures
        ({
            let diff = (now - then) as nat;
            let told = kerneltune_screen::ago(text::decimal(then), now);
            exists|n: nat, unit: nat, mark: Seq<char>|
                {
                    &&& #[trigger] told_as(n, unit, mark)
                    &&& told == text::decimal(n) + mark
                    &&& n * unit <= diff < (n + 1) * unit
                    &&& unit == if diff < 60 {
                        1nat
                    } else if diff < 3600 {
                        60
                    } else if diff < 86400 {
                        3600
                    } else {
                        86400
                    }
                }
        }),
{
    let diff = (now - then) as nat;
    lemma_decimal_is_read(then);
    if diff < 60 {
        assert(told_as(diff, 1, "s ago"@));
    } else if diff < 3600 {
        assert(told_as(diff / 60, 60, "m ago"@));
    } else if diff < 86400 {
        assert(told_as(diff / 3600, 3600, "h ago"@));
    } else {
        assert(told_as(diff / 86400, 86400, "d ago"@));
    }
}

/// A number of units with the mark of its unit.
pub open spec fn told_as(n: nat, unit: nat, mark: Seq<char>) -> bool {
    ||| unit == 1 && mark == "s ago"@
    ||| unit == 60 && mark == "m ago"@
    ||| unit == 3600 && mark == "h ago"@
    ||| unit == 86400 && mark == "d ago"@
}

proof fn lemma_decimal_is_read(n: nat)
    ensures
        text::unsigned_value(text::trimmed(text::decimal(n))) == Some(n),
{
    text::numbers_read_as_written(n as int);
    text::lemma_decimal(n);
}

} // verus!
