//! Typed libtorrent setting updates and the settings pack that collects them.

use vstd::prelude::*;

use super::settings_keys::{BoolSetting, IntSetting, StringSetting};

verus! {

/// The abstract value of a setting update.
pub enum SettingView {
    String(StringSetting, Seq<char>),
    Int(IntSetting, i64),
    Bool(BoolSetting, bool),
}

/// Whether two setting updates set the same key.
pub open spec fn same_key(a: SettingView, b: SettingView) -> bool {
    match (a, b) {
        (SettingView::String(k1, _), SettingView::String(k2, _)) => k1 == k2,
        (SettingView::Int(k1, _), SettingView::Int(k2, _)) => k1 == k2,
        (SettingView::Bool(k1, _), SettingView::Bool(k2, _)) => k1 == k2,
        _ => false,
    }
}

/// Whether a setting update sets a key other than the one `s` sets.
pub open spec fn other_key(s: SettingView) -> spec_fn(SettingView) -> bool {
    |x: SettingView| !same_key(x, s)
}

/// `values` after setting `s`: earlier updates of the same key are dropped
/// and `s` is appended.
pub open spec fn updated(values: Seq<SettingView>, s: SettingView) -> Seq<SettingView> {
    values.filter(other_key(s)).push(s)
}

/// Whether no two updates of `values` set the same key.
pub open spec fn keys_unique(values: Seq<SettingView>) -> bool {
    forall|i: int, j: int|
        0 <= i < j < values.len() ==> !same_key(#[trigger] values[i], #[trigger] values[j])
}

/// Filtering a sequence with one more element at the end.
proof fn lemma_filter_push(a: Seq<SettingView>, x: SettingView, pred: spec_fn(SettingView) -> bool)
    ensures
        a.push(x).filter(pred) == (if pred(x) {
            a.filter(pred).push(x)
        } else {
            a.filter(pred)
        }),
{
    assert(a.push(x).drop_last() =~= a);
    reveal_with_fuel(Seq::filter, 1);
}

/// What a filter keeps comes from the filtered sequence.
proof fn lemma_filter_subset(a: Seq<SettingView>, pred: spec_fn(SettingView) -> bool)
    ensures
        forall|i: int| 0 <= i < a.filter(pred).len() ==> a.contains(#[trigger] a.filter(pred)[i]),
    decreases a.len(),
{
    if a.len() > 0 {
        let init = a.drop_last();
        lemma_filter_subset(init, pred);
        assert(init.push(a.last()) =~= a);
        lemma_filter_push(init, a.last(), pred);
        assert forall|i: int| 0 <= i < a.filter(pred).len() implies a.contains(
            #[trigger] a.filter(pred)[i],
        ) by {
            if i < init.filter(pred).len() {
                let k = choose|k: int| 0 <= k < init.len() && init[k] == init.filter(pred)[i];
                assert(a[k] == init[k]);
            } else {
                assert(a[a.len() - 1] == a.last());
            }
        }
    }
}

/// Filtering twice with one predicate is filtering once.
proof fn lemma_filter_idempotent(a: Seq<SettingView>, pred: spec_fn(SettingView) -> bool)
    ensures
        a.filter(pred).filter(pred) == a.filter(pred),
    decreases a.len(),
{
    if a.len() > 0 {
        let init = a.drop_last();
        lemma_filter_idempotent(init, pred);
        assert(init.push(a.last()) =~= a);
        lemma_filter_push(init, a.last(), pred);
        lemma_filter_push(init.filter(pred), a.last(), pred);
    } else {
        reveal_with_fuel(Seq::filter, 1);
    }
}

/// Filtering keeps the keys of a sequence unique.
proof fn lemma_filter_keys_unique(a: Seq<SettingView>, pred: spec_fn(SettingView) -> bool)
    requires
        keys_unique(a),
    ensures
        keys_unique(a.filter(pred)),
    decreases a.len(),
{
    if a.len() > 0 {
        let init = a.drop_last();
        assert(keys_unique(init)) by {
            assert forall|i: int, j: int| 0 <= i < j < init.len() implies !same_key(
                #[trigger] init[i],
                #[trigger] init[j],
            ) by {
                assert(init[i] == a[i] && init[j] == a[j]);
            }
        }
        lemma_filter_keys_unique(init, pred);
        lemma_filter_subset(init, pred);
        assert(init.push(a.last()) =~= a);
        lemma_filter_push(init, a.last(), pred);
        let f = init.filter(pred);
        if pred(a.last()) {
            assert forall|i: int, j: int| 0 <= i < j < f.push(a.last()).len() implies !same_key(
                #[trigger] f.push(a.last())[i],
                #[trigger] f.push(a.last())[j],
            ) by {
                if j == f.len() {
                    let k = choose|k: int| 0 <= k < init.len() && init[k] == f[i];
                    assert(a[k] == f[i]);
                    assert(a[a.len() - 1] == a.last());
                } else {
                    assert(f.push(a.last())[i] == f[i] && f.push(a.last())[j] == f[j]);
                }
            }
        }
    } else {
        reveal_with_fuel(Seq::filter, 1);
    }
}

/// After a key is set, reading the updates gives back what was set: the new
/// update is the last one and the only one with its key.
pub proof fn law_set_then_read(values: Seq<SettingView>, s: SettingView)
    ensures
        updated(values, s).last() == s,
        updated(values, s).contains(s),
        forall|i: int|
            0 <= i < updated(values, s).len() && same_key(#[trigger] updated(values, s)[i], s)
                ==> updated(values, s)[i] == s,
{
    let f = values.filter(other_key(s));
    let u = updated(values, s);
    assert(u[u.len() - 1] == s);
    assert forall|i: int| 0 <= i < u.len() && same_key(#[trigger] u[i], s) implies u[i] == s by {
        if i < f.len() {
            values.lemma_filter_pred(other_key(s), i);
            assert(u[i] == f[i]);
        }
    }
}

/// Setting a key leaves the updates of every other key as they were, in
/// their order.
pub proof fn law_set_leaves_other_keys(values: Seq<SettingView>, s: SettingView)
    ensures
        updated(values, s).filter(other_key(s)) == values.filter(other_key(s)),
{
    let pred = other_key(s);
    lemma_filter_push(values.filter(pred), s, pred);
    lemma_filter_idempotent(values, pred);
}

/// Setting a key twice to one value is setting it once.
pub proof fn law_set_twice_is_set_once(values: Seq<SettingView>, s: SettingView)
    ensures
        updated(updated(values, s), s) == updated(values, s),
{
    law_set_leaves_other_keys(values, s);
}

/// A pack holds at most one update per key: setting a key keeps that so.
pub proof fn law_set_keeps_keys_unique(values: Seq<SettingView>, s: SettingView)
    requires
        keys_unique(values),
    ensures
        keys_unique(updated(values, s)),
{
    let pred = other_key(s);
    let f = values.filter(pred);
    lemma_filter_keys_unique(values, pred);
    assert forall|i: int, j: int| 0 <= i < j < f.push(s).len() implies !same_key(
        #[trigger] f.push(s)[i],
        #[trigger] f.push(s)[j],
    ) by {
        if j == f.len() {
            values.lemma_filter_pred(pred, i);
            assert(f.push(s)[i] == f[i]);
        } else {
            assert(f.push(s)[i] == f[i] && f.push(s)[j] == f[j]);
        }
    }
}

/// A typed libtorrent setting update.
#[derive(Debug, PartialEq, Eq)]
pub enum Setting {
    /// A string setting.
    String(StringSetting, String),
    /// An integer setting.
    Int(IntSetting, i64),
    /// A boolean setting.
    Bool(BoolSetting, bool),
}

impl View for Setting {
    type V = SettingView;

    open spec fn view(&self) -> SettingView {
        match self {
            Setting::String(k, v) => SettingView::String(*k, v@),
            Setting::Int(k, v) => SettingView::Int(*k, *v),
            Setting::Bool(k, v) => SettingView::Bool(*k, *v),
        }
    }
}

impl Clone for Setting {
    fn clone(&self) -> (r: Self)
        ensures
            r@ == self@,
    {
        match self {
            Setting::String(k, v) => Setting::String(*k, v.clone()),
            Setting::Int(k, v) => Setting::Int(*k, *v),
            Setting::Bool(k, v) => Setting::Bool(*k, *v),
        }
    }
}

/// Returns whether two setting updates set the same key.
fn same_key_exec(a: &Setting, b: &Setting) -> (r: bool)
    ensures
        r == same_key(a@, b@),
{
    match (a, b) {
        (Setting::String(k1, _), Setting::String(k2, _)) => *k1 == *k2,
        (Setting::Int(k1, _), Setting::Int(k2, _)) => *k1 == *k2,
        (Setting::Bool(k1, _), Setting::Bool(k2, _)) => *k1 == *k2,
        _ => false,
    }
}

/// A collection of libtorrent settings to apply to a session.
///
/// The pack holds at most one update per key, in the order the keys were
/// last set.
#[derive(Debug, Default, PartialEq, Eq)]
pub struct SettingsPack {
    values: Vec<Setting>,
}

impl View for SettingsPack {
    type V = Seq<SettingView>;

    closed spec fn view(&self) -> Seq<SettingView> {
        self.values@.map_values(|s: Setting| s@)
    }
}

impl Clone for SettingsPack {
    fn clone(&self) -> (r: Self)
        ensures
            r@ == self@,
    {
        let mut values: Vec<Setting> = Vec::new();
        let mut i: usize = 0;
        while i < self.values.len()
            invariant
                i <= self.values@.len(),
                values@.map_values(|s: Setting| s@) == self@.take(i as int),
            decreases self.values@.len() - i,
        {
            let ghost before = values@.map_values(|s: Setting| s@);
            values.push(self.values[i].clone());
            assert(values@.map_values(|s: Setting| s@) =~= self@.take(i + 1)) by {
                assert(self@.take(i + 1) =~= before.push(self@[i as int]));
            }
            i = i + 1;
        }
        assert(self@.take(self.values@.len() as int) =~= self@);
        SettingsPack { values }
    }
}

impl SettingsPack {
    /// Creates an empty settings pack.
    pub fn new() -> (r: Self)
        ensures
            r@ == Seq::<SettingView>::empty(),
    {
        let r = SettingsPack { values: Vec::new() };
        assert(r@ =~= Seq::<SettingView>::empty());
        r
    }

    /// Drops the updates of `setting`'s key and appends `setting`.
    fn replace_setting(&mut self, setting: Setting)
        ensures
            final(self)@ == updated(old(self)@, setting@),
    {
        let ghost all = self@;
        let ghost pred = other_key(setting@);
        let mut rest: Vec<Setting> = Vec::new();
        std::mem::swap(&mut self.values, &mut rest);
        let n = rest.len();
        let mut i: usize = 0;
        assert(self@ =~= all.take(0).filter(pred)) by {
            reveal(Seq::filter);
        }
        while i < n
            invariant
                n == all.len(),
                i <= n,
                pred == other_key(setting@),
                rest@.map_values(|x: Setting| x@) == all.skip(i as int),
                self@ == all.take(i as int).filter(pred),
            decreases n - i,
        {
            let ghost before = self@;
            let ghost rest_view = rest@.map_values(|x: Setting| x@);
            let ghost old_rest = rest@;
            assert(rest_view.len() == rest@.len());
            assert(rest_view[0] == rest@[0]@);
            assert(all.skip(i as int)[0] == all[i as int]);
            let item = rest.remove(0);
            assert forall|k: int| 0 <= k < rest@.len() implies #[trigger] rest@[k]@ == all.skip(
                i + 1,
            )[k] by {
                assert(rest@[k] == old_rest[k + 1]);
                assert(rest_view[k + 1] == old_rest[k + 1]@);
                assert(all.skip(i as int)[k + 1] == all.skip(i + 1)[k]);
            }
            assert(rest@.map_values(|x: Setting| x@) =~= all.skip(i + 1));
            let same = same_key_exec(&item, &setting);
            assert(pred(all[i as int]) == !same);
            assert(all.take(i + 1).drop_last() =~= all.take(i as int));
            assert(all.take(i + 1).last() == all[i as int]);
            assert(all.take(i + 1).filter(pred) == (if same {
                before
            } else {
                before.push(all[i as int])
            })) by {
                reveal_with_fuel(Seq::filter, 1);
            }
            if !same {
                self.values.push(item);
                assert(self@ =~= before.push(all[i as int]));
            }
            i = i + 1;
        }
        assert(all.take(n as int) =~= all);
        let ghost filtered = self@;
        self.values.push(setting);
        assert(self@ =~= filtered.push(setting@));
    }

    /// Sets a string setting, replacing any earlier value of the key.
    pub fn set_string<V: Into<String>>(&mut self, key: StringSetting, value: V)
        ensures
            exists|s: String|
                call_ensures(V::into, (value,), s) && final(self)@ == updated(
                    old(self)@,
                    SettingView::String(key, s@),
                ),
    {
        let s: String = value.into();
        let ghost sv = s@;
        self.replace_setting(Setting::String(key, s));
        assert(call_ensures(V::into, (value,), s));
    }

    /// Sets an integer setting, replacing any earlier value of the key.
    pub fn set_int(&mut self, key: IntSetting, value: i64)
        ensures
            final(self)@ == updated(old(self)@, SettingView::Int(key, value)),
    {
        self.replace_setting(Setting::Int(key, value));
    }

    /// Sets a boolean setting, replacing any earlier value of the key.
    pub fn set_bool(&mut self, key: BoolSetting, value: bool)
        ensures
            final(self)@ == updated(old(self)@, SettingView::Bool(key, value)),
    {
        self.replace_setting(Setting::Bool(key, value));
    }

    /// Returns the configured setting updates.
    pub fn values(&self) -> (r: &[Setting])
        ensures
            r@.map_values(|s: Setting| s@) == self@,
    {
        self.values.as_slice()
    }
}

} // verus!
