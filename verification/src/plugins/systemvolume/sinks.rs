//! Sinks by name: how lists of them are merged, ordered and told apart.

use vstd::prelude::*;

use crate::packet::{copy_text, SinkState};
use crate::plugins::systemvolume::backend::LocalSinkState;
use crate::table::Table;
use crate::text::{lemma_lex_total, lemma_lex_transitive, lex_lt, text_before};

verus! {

/// The packets that describe sinks.
pub const STATE_PACKET: &'static str = "kdeconnect.systemvolume";

/// The packets that ask for a description or for a change.
pub const REQUEST_PACKET: &'static str = "kdeconnect.systemvolume.request";

/// A sink of this desktop as it is described to others.
pub open spec fn described(s: LocalSinkState) -> SinkState {
    SinkState {
        name: s.name,
        description: s.description,
        volume: s.volume,
        max_volume: s.max_volume,
        muted: s.muted,
        enabled: s.enabled,
    }
}

impl From<LocalSinkState> for SinkState {
    fn from(s: LocalSinkState) -> (r: Self) {
        SinkState {
            name: s.name,
            description: s.description,
            volume: s.volume,
            max_volume: s.max_volume,
            muted: s.muted,
            enabled: s.enabled,
        }
    }
}

impl vstd::std_specs::convert::FromSpecImpl<LocalSinkState> for SinkState {
    open spec fn obeys_from_spec() -> bool {
        true
    }

    open spec fn from_spec(s: LocalSinkState) -> SinkState {
        described(s)
    }
}

/// Every sink stands under its own name.
pub open spec fn named(sinks: Map<Seq<char>, SinkState>) -> bool {
    forall|k: Seq<char>| #[trigger] sinks.contains_key(k) ==> sinks[k].name@ == k
}

/// `list` holds every sink once, in the order of their names.
pub open spec fn lists_sinks(list: Seq<SinkState>, sinks: Map<Seq<char>, SinkState>) -> bool {
    &&& by_name(list)
    &&& forall|i: int|
        0 <= i < list.len() ==> sinks.contains_key((#[trigger] list[i]).name@)
            && sinks[list[i].name@] == list[i]
    &&& forall|k: Seq<char>| #[trigger]
        sinks.contains_key(k) ==> exists|i: int|
            0 <= i < list.len() && (#[trigger] list[i]).name@ == k
}

/// The names ascend.
pub open spec fn by_name(list: Seq<SinkState>) -> bool {
    forall|i: int, j: int|
        #![trigger list[i], list[j]]
        0 <= i < j < list.len() ==> lex_lt(list[i].name@, list[j].name@)
}

/// `name` is the name of a sink that is the default output; there is none where
/// no sink is.
pub open spec fn is_default_of(sinks: Map<Seq<char>, SinkState>, name: Option<Seq<char>>) -> bool {
    match name {
        Some(n) => exists|k: Seq<char>| #[trigger]
            sinks.contains_key(k) && sinks[k].enabled == Some(true) && sinks[k].name@ == n,
        None => forall|k: Seq<char>| #[trigger]
            sinks.contains_key(k) ==> sinks[k].enabled != Some(true),
    }
}

/// Whether a list has a sink of that name.
pub open spec fn has_name(list: Seq<SinkState>, name: Seq<char>) -> bool {
    exists|i: int| 0 <= i < list.len() && (#[trigger] list[i]).name@ == name
}

/// Whether a name is one of the first `n` keys.
spec fn among(keys: Seq<String>, n: int, name: Seq<char>) -> bool {
    exists|k: int| 0 <= k < n && (#[trigger] keys[k])@ == name
}

/// The names of a list with one more sink.
proof fn lemma_names_with(list: Seq<SinkState>, at: int, sink: SinkState)
    requires
        0 <= at <= list.len(),
    ensures
        forall|name: Seq<char>| #[trigger]
            has_name(list.insert(at, sink), name) <==> has_name(list, name) || name == sink.name@,
        forall|i: int|
            0 <= i < list.len() + 1 ==> #[trigger] list.insert(at, sink)[i] == sink || (exists|
                j: int,
            | 0 <= j < list.len() && list[j] == list.insert(at, sink)[i]),
{
    let more = list.insert(at, sink);
    assert forall|name: Seq<char>| #[trigger] has_name(more, name) <==> has_name(list, name) || name
        == sink.name@ by {
        if has_name(more, name) {
            let i = choose|i: int| 0 <= i < more.len() && (#[trigger] more[i]).name@ == name;
            if i < at {
                assert(list[i] == more[i]);
            } else if i > at {
                assert(list[i - 1] == more[i]);
            }
        }
        if has_name(list, name) {
            let i = choose|i: int| 0 <= i < list.len() && (#[trigger] list[i]).name@ == name;
            if i < at {
                assert(more[i] == list[i]);
            } else {
                assert(more[i + 1] == list[i]);
            }
        }
        if name == sink.name@ {
            assert(more[at].name@ == name);
        }
    }
    assert forall|i: int| 0 <= i < list.len() + 1 implies #[trigger] more[i] == sink || (exists|
        j: int,
    | 0 <= j < list.len() && list[j] == more[i]) by {
        if i < at {
            assert(list[i] == more[i]);
        } else if i > at {
            assert(list[i - 1] == more[i]);
        }
    }
}

/// Puts a sink where its name belongs.
fn insert_by_name(list: &mut Vec<SinkState>, sink: SinkState)
    requires
        by_name(old(list)@),
        !has_name(old(list)@, sink.name@),
    ensures
        by_name(final(list)@),
        forall|name: Seq<char>| #[trigger]
            has_name(final(list)@, name) <==> has_name(old(list)@, name) || name == sink.name@,
        forall|i: int|
            0 <= i < final(list)@.len() ==> #[trigger] final(list)@[i] == sink || (exists|j: int|
                0 <= j < old(list)@.len() && old(list)@[j] == final(list)@[i]),
{
    let ghost before = list@;
    let mut at: usize = 0;
    while at < list.len() && text_before(list[at].name.as_str(), sink.name.as_str())
        invariant
            list@ == before,
            at <= before.len(),
            forall|j: int| 0 <= j < at ==> lex_lt((#[trigger] before[j]).name@, sink.name@),
        decreases before.len() - at,
    {
        at = at + 1;
    }
    proof {
        if at < before.len() {
            lemma_lex_total(before[at as int].name@, sink.name@);
            assert(before[at as int].name@ != sink.name@);
            assert forall|j: int| at <= j < before.len() implies lex_lt(
                sink.name@,
                (#[trigger] before[j]).name@,
            ) by {
                if j > at {
                    lemma_lex_transitive(sink.name@, before[at as int].name@, before[j].name@);
                }
            }
        }
        lemma_names_with(before, at as int, sink);
    }
    let ghost added = sink;
    list.insert(at, sink);
    proof {
        let after = list@;
        assert(after == before.insert(at as int, added));
        assert forall|i: int, j: int|
            #![trigger after[i], after[j]]
            0 <= i < j < after.len() implies lex_lt(after[i].name@, after[j].name@) by {
            let i0 = if i < at { i } else { i - 1 };
            let j0 = if j < at { j } else { j - 1 };
            if i != at {
                assert(after[i] == before[i0]);
            }
            if j != at {
                assert(after[j] == before[j0]);
            }
        }
    }
}

/// The sinks in the order of their names.
pub fn sorted_sinks(sinks: &Table<SinkState>) -> (r: Vec<SinkState>)
    requires
        named(sinks@),
    ensures
        lists_sinks(r@, sinks@),
{
    let keys = sinks.keys();
    let mut list: Vec<SinkState> = Vec::new();
    let mut n: usize = 0;
    while n < keys.len()
        invariant
            n <= keys@.len(),
            named(sinks@),
            crate::table::lists_keys(keys@, sinks@),
            by_name(list@),
            forall|i: int|
                0 <= i < list@.len() ==> sinks@.contains_key((#[trigger] list@[i]).name@)
                    && sinks@[list@[i].name@] == list@[i],
            forall|name: Seq<char>| #[trigger]
                has_name(list@, name) <==> among(keys@, n as int, name),
        decreases keys@.len() - n,
    {
        let ghost before = list@;
        let ghost key = keys@[n as int]@;
        assert(!among(keys@, n as int, key)) by {
            if among(keys@, n as int, key) {
                let k = choose|k: int| 0 <= k < n && (#[trigger] keys@[k])@ == key;
                assert(keys@[k]@ != keys@[n as int]@);
            }
        }
        assert forall|name: Seq<char>| #[trigger]
            among(keys@, n + 1, name) <==> among(keys@, n as int, name) || name == key by {
            if among(keys@, n + 1, name) && name != key {
                let k = choose|k: int| 0 <= k < n + 1 && (#[trigger] keys@[k])@ == name;
                assert(k < n);
            }
            if among(keys@, n as int, name) {
                let k = choose|k: int| 0 <= k < n && (#[trigger] keys@[k])@ == name;
                assert(keys@[k]@ == name);
            }
            if name == key {
                assert(keys@[n as int]@ == name);
            }
        }
        match sinks.get(keys[n].as_str()) {
            Some(sink) => {
                let sink = sink.clone();
                assert(sink.name@ == key);
                assert(!has_name(before, key));
                insert_by_name(&mut list, sink);
                assert forall|i: int| 0 <= i < list@.len() implies sinks@.contains_key(
                    (#[trigger] list@[i]).name@,
                ) && sinks@[list@[i].name@] == list@[i] by {}
            },
            None => {
                assert(sinks@.contains_key(key));
            },
        }
        n = n + 1;
    }
    proof {
        assert forall|k: Seq<char>| #[trigger] sinks@.contains_key(k) implies exists|i: int|
            0 <= i < list@.len() && (#[trigger] list@[i]).name@ == k by {
            let j = choose|j: int| 0 <= j < keys@.len() && (#[trigger] keys@[j])@ == k;
            assert(among(keys@, n as int, k));
            assert(has_name(list@, k));
        }
    }
    list
}

/// The name of a sink that is the default output.
pub fn find_default(sinks: &Table<SinkState>) -> (r: Option<String>)
    ensures
        is_default_of(sinks@, crate::error::text_of(r)),
{
    let keys = sinks.keys();
    let mut n: usize = 0;
    while n < keys.len()
        invariant
            n <= keys@.len(),
            crate::table::lists_keys(keys@, sinks@),
            forall|k: int|
                0 <= k < n ==> sinks@[(#[trigger] keys@[k])@].enabled != Some(true),
        decreases keys@.len() - n,
    {
        if let Some(sink) = sinks.get(keys[n].as_str()) {
            if let Some(enabled) = sink.enabled {
                if enabled {
                    assert(sinks@.contains_key(keys@[n as int]@));
                    return Some(sink.name.clone());
                }
            }
        }
        n = n + 1;
    }
    assert forall|k: Seq<char>| #[trigger] sinks@.contains_key(k) implies sinks@[k].enabled != Some(
        true,
    ) by {
        let j = choose|j: int| 0 <= j < keys@.len() && (#[trigger] keys@[j])@ == k;
        assert(keys@[j]@ == k);
    }
    None
}

/// A new description of a sink on top of what was known of it: what it leaves
/// out stays.
pub open spec fn merged(known: Option<SinkState>, s: LocalSinkState) -> SinkState {
    let base = match known {
        Some(k) => k,
        None => SinkState {
            name: s.name,
            description: None,
            volume: None,
            max_volume: None,
            muted: None,
            enabled: None,
        },
    };
    SinkState {
        name: s.name,
        description: if s.description is Some {
            s.description
        } else {
            base.description
        },
        volume: if s.volume is Some {
            s.volume
        } else {
            base.volume
        },
        max_volume: if s.max_volume is Some {
            s.max_volume
        } else {
            base.max_volume
        },
        muted: if s.muted is Some {
            s.muted
        } else {
            base.muted
        },
        enabled: if s.enabled is Some {
            s.enabled
        } else {
            base.enabled
        },
    }
}

/// What is known of a sink.
pub open spec fn known_sink(sinks: Map<Seq<char>, SinkState>, name: Seq<char>) -> Option<SinkState> {
    if sinks.contains_key(name) {
        Some(sinks[name])
    } else {
        None
    }
}

/// The sinks after a list, in which each entry adds to what is known.
pub open spec fn refreshed(sinks: Map<Seq<char>, SinkState>, list: Seq<LocalSinkState>) -> Map<
    Seq<char>,
    SinkState,
>
    decreases list.len(),
{
    if list.len() == 0 {
        sinks
    } else {
        let before = refreshed(sinks, list.drop_last());
        before.insert(list.last().name@, merged(known_sink(before, list.last().name@), list.last()))
    }
}

/// The names in a list.
pub open spec fn sink_names(list: Seq<LocalSinkState>) -> Seq<Seq<char>> {
    list.map_values(|s: LocalSinkState| s.name@)
}

/// The sinks after a list of all of them: those that it leaves out are gone.
pub open spec fn applied(sinks: Map<Seq<char>, SinkState>, list: Seq<LocalSinkState>) -> Map<
    Seq<char>,
    SinkState,
> {
    refreshed(sinks.restrict(sink_names(list).to_set()), list)
}

/// A new description of a sink on top of what was known of it.
fn merge(known: Option<&SinkState>, s: &LocalSinkState) -> (r: SinkState)
    ensures
        r == merged(
            match known {
                Some(k) => Some(*k),
                None => None,
            },
            *s,
        ),
{
    let mut sink = match known {
        Some(k) => k.clone(),
        None => SinkState {
            name: s.name.clone(),
            description: None,
            volume: None,
            max_volume: None,
            muted: None,
            enabled: None,
        },
    };
    if s.description.is_some() {
        sink.description = copy_text(&s.description);
    }
    if s.max_volume.is_some() {
        sink.max_volume = s.max_volume;
    }
    if s.volume.is_some() {
        sink.volume = s.volume;
    }
    if s.muted.is_some() {
        sink.muted = s.muted;
    }
    if s.enabled.is_some() {
        sink.enabled = s.enabled;
    }
    sink.name = s.name.clone();
    sink
}

/// Brings the sinks up to date with a list of all of them.
pub fn apply_list(sinks: &mut Table<SinkState>, list: &Vec<LocalSinkState>)
    ensures
        final(sinks)@ == applied(old(sinks)@, list@),
{
    let mut names: Vec<String> = Vec::new();
    let mut i: usize = 0;
    while i < list.len()
        invariant
            i <= list@.len(),
            names@.len() == i,
            forall|j: int| 0 <= j < i ==> (#[trigger] names@[j])@ == list@[j].name@,
        decreases list@.len() - i,
    {
        names.push(list[i].name.clone());
        i = i + 1;
    }
    assert(crate::table::texts(names@) =~= sink_names(list@));
    sinks.retain(&names);
    let ghost kept = sinks@;
    let mut n: usize = 0;
    assert(list@.take(0) =~= Seq::<LocalSinkState>::empty());
    while n < list.len()
        invariant
            n <= list@.len(),
            sinks@ == refreshed(kept, list@.take(n as int)),
        decreases list@.len() - n,
    {
        assert(list@.take(n + 1).drop_last() =~= list@.take(n as int));
        let sink = merge(sinks.get(list[n].name.as_str()), &list[n]);
        sinks.insert(list[n].name.clone(), sink);
        n = n + 1;
    }
    assert(list@.take(n as int) =~= list@);
}

/// Sinks stay under their own names, and exactly those of the list are left.
pub proof fn lemma_applied(sinks: Map<Seq<char>, SinkState>, list: Seq<LocalSinkState>)
    requires
        named(sinks),
    ensures
        named(applied(sinks, list)),
        applied(sinks, list).dom() == sink_names(list).to_set(),
{
    let kept = sinks.restrict(sink_names(list).to_set());
    assert(named(kept));
    lemma_refreshed(kept, list);
    assert forall|k: Seq<char>| applied(sinks, list).contains_key(k) == sink_names(
        list,
    ).to_set().contains(k) by {
        assert(sink_names(list).to_set().contains(k) == sink_names(list).contains(k));
    }
    assert(applied(sinks, list).dom() =~= sink_names(list).to_set());
}

proof fn lemma_refreshed(sinks: Map<Seq<char>, SinkState>, list: Seq<LocalSinkState>)
    requires
        named(sinks),
    ensures
        named(refreshed(sinks, list)),
        forall|k: Seq<char>| #[trigger]
            refreshed(sinks, list).contains_key(k) <==> sinks.contains_key(k) || sink_names(
                list,
            ).contains(k),
    decreases list.len(),
{
    if list.len() > 0 {
        let rest = list.drop_last();
        lemma_refreshed(sinks, rest);
        assert forall|k: Seq<char>| #[trigger]
            refreshed(sinks, list).contains_key(k) <==> sinks.contains_key(k) || sink_names(
            list,
        ).contains(k) by {
            if sink_names(rest).contains(k) {
                let i = choose|i: int| 0 <= i < rest.len() && sink_names(rest)[i] == k;
                assert(sink_names(list)[i] == k);
            }
            if k == list.last().name@ {
                assert(sink_names(list)[list.len() - 1] == k);
            }
            if sink_names(list).contains(k) && k != list.last().name@ {
                let i = choose|i: int| 0 <= i < list.len() && sink_names(list)[i] == k;
                assert(sink_names(rest)[i] == k);
            }
        }
    }
}

} // verus!
