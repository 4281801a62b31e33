//! Application-wide state of the user interface: the blocks of the layout, the input
//! mode, and the command-line arguments.

use vstd::multiset::Multiset;
use vstd::prelude::*;

use crate::ftc_proto::robot_command::{OpModeData, OpModeDataView, OpModeFlavor};
use crate::text::chars_of;

verus! {

pub const DEBUG_BLOCK_ID: u8 = 0;

pub const TELEOP_BLOCK_ID: u8 = 1;

pub const AUTO_BLOCK_ID: u8 = 2;

pub const ROBOT_BLOCK_ID: u8 = 3;

pub const ACTIVE_OPMODE_BLOCK_ID: u8 = 4;

pub const GAMEPADS_BLOCK_ID: u8 = 5;

/// What mode our UI is in, denotes what different inputs mean
#[derive(Clone, Copy, PartialEq, Eq, Structural, Debug)]
pub enum AppMode {
    /// Tab switches selected elements, : opens command mode, different keys are hotkeys
    Normal,
    /// Enter submits the current command, escape returns to normal mode, character keys are added
    /// to the command buffer
    InsertCommand,
    /// The hardware configuration screen is open
    ConfigureHardware,
}

/// Command-line arguments
#[derive(Debug, Clone, PartialEq, Eq)]
pub struct Args {
    /// Whether or not to export receieved telemetry packets as a file called telemetry_log.json
    pub export_telemetry: bool,
    /// The level of messages to log at (error, warn, info, debug or trace), if logging
    pub log_level: Option<String>,
    /// If provided, skips the check for whether we are in a terminal (on Linux).
    pub skip_tty_check: bool,
}

// ---------------------------------------------------------------------------------------
// The opmode lists
// ---------------------------------------------------------------------------------------

/// Whether `a` comes before `b` in the order of `String`'s `Ord`: the first differing
/// character decides (by code point, which is also the order of their UTF-8 bytes), and a
/// proper prefix comes first.
pub open spec fn chars_less(a: Seq<char>, b: Seq<char>) -> bool
    decreases a.len(),
{
    if a.len() == 0 {
        b.len() > 0
    } else if b.len() == 0 {
        false
    } else if a[0] != b[0] {
        (a[0] as int) < (b[0] as int)
    } else {
        chars_less(a.drop_first(), b.drop_first())
    }
}

/// The order opmodes are listed in: by group, then by name.
pub open spec fn opmode_less(a: OpModeDataView, b: OpModeDataView) -> bool {
    chars_less(a.group, b.group) || (a.group == b.group && chars_less(a.name, b.name))
}

/// No string comes before itself.
pub proof fn lemma_chars_less_irreflexive(a: Seq<char>)
    ensures
        !chars_less(a, a),
    decreases a.len(),
{
    if a.len() > 0 {
        lemma_chars_less_irreflexive(a.drop_first());
    }
}

/// The order of strings is transitive.
pub proof fn lemma_chars_less_transitive(a: Seq<char>, b: Seq<char>, c: Seq<char>)
    requires
        chars_less(a, b),
        chars_less(b, c),
    ensures
        chars_less(a, c),
    decreases a.len(),
{
    if a.len() > 0 && b.len() > 0 && c.len() > 0 && a[0] == b[0] && b[0] == c[0] {
        lemma_chars_less_transitive(a.drop_first(), b.drop_first(), c.drop_first());
    }
}

/// Of two different strings, one comes before the other.
pub proof fn lemma_chars_less_total(a: Seq<char>, b: Seq<char>)
    requires
        a != b,
    ensures
        chars_less(a, b) || chars_less(b, a),
    decreases a.len(),
{
    if a.len() > 0 && b.len() > 0 && a[0] == b[0] {
        if a.drop_first() == b.drop_first() {
            assert(a =~= seq![a[0]] + a.drop_first());
            assert(b =~= seq![b[0]] + b.drop_first());
        }
        lemma_chars_less_total(a.drop_first(), b.drop_first());
    } else if a.len() > 0 && b.len() > 0 {
        assert((a[0] as int) != (b[0] as int));
    } else if a.len() == 0 && b.len() == 0 {
        assert(a =~= b);
    }
}

/// Whether `a` comes before `b` as strings.
pub fn string_less(a: &String, b: &String) -> (r: bool)
    ensures
        r == chars_less(a@, b@),
{
    let x = chars_of(a.as_str());
    let y = chars_of(b.as_str());
    let mut i: usize = 0;
    assert(a@.skip(0) =~= a@);
    assert(b@.skip(0) =~= b@);
    while i < x.len() && i < y.len()
        invariant
            x@ == a@,
            y@ == b@,
            i <= x@.len(),
            i <= y@.len(),
            chars_less(a@, b@) == chars_less(a@.skip(i as int), b@.skip(i as int)),
        decreases x@.len() - i,
    {
        let ghost sa = a@.skip(i as int);
        let ghost sb = b@.skip(i as int);
        assert(sa[0] == x@[i as int]);
        assert(sb[0] == y@[i as int]);
        if x[i] != y[i] {
            return x[i] < y[i];
        }
        assert(sa.drop_first() =~= a@.skip(i + 1));
        assert(sb.drop_first() =~= b@.skip(i + 1));
        i += 1;
    }
    assert(a@.skip(i as int).len() == 0 || b@.skip(i as int).len() == 0);
    i < y.len()
}

/// Whether opmode `a` is listed before opmode `b`.
pub fn opmode_before(a: &OpModeData, b: &OpModeData) -> (r: bool)
    ensures
        r == opmode_less(a@, b@),
{
    string_less(&a.group, &b.group) || (a.group == b.group && string_less(&a.name, &b.name))
}

/// The views of a list of opmodes.
pub open spec fn opmodes_view(s: Seq<OpModeData>) -> Seq<OpModeDataView> {
    s.map_values(|o: OpModeData| o@)
}

/// Where an opmode goes in a sorted list: after every opmode it does not come before.
pub open spec fn insertion_point(s: Seq<OpModeDataView>, x: OpModeDataView) -> nat
    decreases s.len(),
{
    if s.len() == 0 {
        0
    } else if opmode_less(x, s[0]) {
        0
    } else {
        1 + insertion_point(s.drop_first(), x)
    }
}

/// The opmodes in the order they are listed: sorted by group, then by name, keeping the
/// order they came in where both are equal (as the stable `sort_by` does).
pub open spec fn sorted_opmodes(s: Seq<OpModeDataView>) -> Seq<OpModeDataView>
    decreases s.len(),
{
    if s.len() == 0 {
        Seq::empty()
    } else {
        let r = sorted_opmodes(s.drop_last());
        r.insert(insertion_point(r, s.last()) as int, s.last())
    }
}

/// Whether a list is in listing order.
pub open spec fn is_listing_order(s: Seq<OpModeDataView>) -> bool {
    forall|i: int, j: int| 0 <= i < j < s.len() ==> !opmode_less(#[trigger] s[j], #[trigger] s[i])
}

/// The insertion point is within the list, after every opmode not after `x`.
proof fn lemma_insertion_point(s: Seq<OpModeDataView>, x: OpModeDataView)
    ensures
        insertion_point(s, x) <= s.len(),
        forall|j: int| 0 <= j < insertion_point(s, x) ==> !opmode_less(x, #[trigger] s[j]),
        insertion_point(s, x) < s.len() ==> opmode_less(x, s[insertion_point(s, x) as int]),
    decreases s.len(),
{
    if s.len() > 0 && !opmode_less(x, s[0]) {
        lemma_insertion_point(s.drop_first(), x);
        assert forall|j: int| 0 <= j < insertion_point(s, x) implies !opmode_less(
            x,
            #[trigger] s[j],
        ) by {
            if j > 0 {
                assert(s[j] == s.drop_first()[j - 1]);
            }
        }
    }
}

/// The order of opmodes is transitive.
proof fn lemma_opmode_less_transitive(a: OpModeDataView, b: OpModeDataView, c: OpModeDataView)
    requires
        opmode_less(a, b),
        opmode_less(b, c),
    ensures
        opmode_less(a, c),
{
    if chars_less(a.group, b.group) && chars_less(b.group, c.group) {
        lemma_chars_less_transitive(a.group, b.group, c.group);
    }
    lemma_chars_less_irreflexive(a.group);
    lemma_chars_less_irreflexive(b.group);
    if a.group == b.group && b.group == c.group {
        lemma_chars_less_transitive(a.name, b.name, c.name);
    }
}

/// Sorting keeps the opmodes and puts them in listing order.
pub proof fn lemma_sorted_opmodes(s: Seq<OpModeDataView>)
    ensures
        sorted_opmodes(s).to_multiset() == s.to_multiset(),
        sorted_opmodes(s).len() == s.len(),
        is_listing_order(sorted_opmodes(s)),
    decreases s.len(),
{
    broadcast use vstd::seq_lib::to_multiset_insert, vstd::seq_lib::to_multiset_build;

    if s.len() == 0 {
        assert(s =~= Seq::<OpModeDataView>::empty());
    } else {
        let r = sorted_opmodes(s.drop_last());
        let x = s.last();
        lemma_sorted_opmodes(s.drop_last());
        lemma_insertion_point(r, x);
        let p = insertion_point(r, x) as int;
        let t = r.insert(p, x);
        assert(s =~= s.drop_last().push(x));
        assert forall|i: int, j: int| 0 <= i < j < t.len() implies !opmode_less(
            #[trigger] t[j],
            #[trigger] t[i],
        ) by {
            if j < p {
                assert(t[i] == r[i] && t[j] == r[j]);
            } else if j == p {
                assert(t[i] == r[i]);
            } else if i == p {
                assert(t[j] == r[j - 1]);
                if opmode_less(t[j], x) {
                    if j - 1 > p {
                        assert(!opmode_less(r[j - 1], r[p]));
                    }
                    lemma_opmode_less_transitive(r[j - 1], x, r[p]);
                    lemma_opmode_less_irreflexive_at(r, p);
                }
            } else if i < p {
                assert(t[i] == r[i] && t[j] == r[j - 1]);
            } else {
                assert(t[i] == r[i - 1] && t[j] == r[j - 1]);
            }
        }
    }
}

/// A helper for the sorting proof: an opmode is not before itself, nor before one that is
/// not after it.
proof fn lemma_opmode_less_irreflexive_at(r: Seq<OpModeDataView>, p: int)
    requires
        0 <= p < r.len(),
    ensures
        !opmode_less(r[p], r[p]),
{
    lemma_chars_less_irreflexive(r[p].group);
    lemma_chars_less_irreflexive(r[p].name);
}

/// Whether opmodes that share a group and a name are the same opmode.
pub open spec fn keys_identify(ms: Multiset<OpModeDataView>) -> bool {
    forall|x: OpModeDataView, y: OpModeDataView|
        #![trigger ms.count(x), ms.count(y)]
        ms.count(x) > 0 && ms.count(y) > 0 && x.group == y.group && x.name == y.name ==> x == y
}

/// Of two opmodes that differ in group or name, one is listed before the other.
proof fn lemma_opmode_less_total(x: OpModeDataView, y: OpModeDataView)
    requires
        !(x.group == y.group && x.name == y.name),
    ensures
        opmode_less(x, y) || opmode_less(y, x),
{
    if x.group != y.group {
        lemma_chars_less_total(x.group, y.group);
    } else {
        lemma_chars_less_total(x.name, y.name);
    }
}

/// Two lists in listing order that hold the same opmodes, none sharing group and name
/// with a different one, are the same list.
proof fn lemma_listing_order_determined(a: Seq<OpModeDataView>, b: Seq<OpModeDataView>)
    requires
        is_listing_order(a),
        is_listing_order(b),
        a.to_multiset() == b.to_multiset(),
        keys_identify(a.to_multiset()),
    ensures
        a == b,
    decreases a.len(),
{
    broadcast use vstd::seq_lib::group_to_multiset_ensures;

    assert(a.len() == b.len()) by {
        assert(a.len() == a.to_multiset().len());
        assert(b.len() == b.to_multiset().len());
    }
    if a.len() == 0 {
        assert(a =~= b);
    } else {
        let x = a[0];
        let y = b[0];
        assert(a.contains(x));
        assert(a.to_multiset().count(x) > 0);
        assert(b.contains(x));
        let k = choose|k: int| 0 <= k < b.len() && b[k] == x;
        assert(b.contains(y));
        assert(b.to_multiset().count(y) > 0);
        assert(a.contains(y));
        let m = choose|m: int| 0 <= m < a.len() && a[m] == y;
        if k > 0 {
            assert(!opmode_less(b[k], b[0]));
        }
        if m > 0 {
            assert(!opmode_less(a[m], a[0]));
        }
        if !(x.group == y.group && x.name == y.name) {
            lemma_opmode_less_total(x, y);
            lemma_chars_less_irreflexive(x.group);
            lemma_chars_less_irreflexive(x.name);
        }
        assert(x == y);
        let a1 = a.drop_first();
        let b1 = b.drop_first();
        assert(a.remove(0) =~= a1);
        assert(b.remove(0) =~= b1);
        assert(a1.to_multiset() == a.to_multiset().remove(x));
        assert(b1.to_multiset() == b.to_multiset().remove(y));
        assert forall|i: int, j: int| 0 <= i < j < a1.len() implies !opmode_less(
            #[trigger] a1[j],
            #[trigger] a1[i],
        ) by {
            assert(a1[i] == a[i + 1] && a1[j] == a[j + 1]);
        }
        assert forall|i: int, j: int| 0 <= i < j < b1.len() implies !opmode_less(
            #[trigger] b1[j],
            #[trigger] b1[i],
        ) by {
            assert(b1[i] == b[i + 1] && b1[j] == b[j + 1]);
        }
        assert forall|p: OpModeDataView, q: OpModeDataView|
            #![trigger a1.to_multiset().count(p), a1.to_multiset().count(q)]
            a1.to_multiset().count(p) > 0 && a1.to_multiset().count(q) > 0 && p.group == q.group
                && p.name == q.name implies p == q by {
            assert(a.to_multiset().count(p) > 0);
            assert(a.to_multiset().count(q) > 0);
        }
        lemma_listing_order_determined(a1, b1);
        assert(a =~= b) by {
            assert forall|i: int| 0 <= i < a.len() implies a[i] == b[i] by {
                if i > 0 {
                    assert(a[i] == a1[i - 1] && b[i] == b1[i - 1]);
                }
            }
        }
    }
}

/// The opmodes are always listed in the same order: the list depends only on which
/// opmodes the robot sent, not on the order it sent them in, as long as no two different
/// opmodes share a group and a name.
pub proof fn lemma_listing_independent_of_arrival(s1: Seq<OpModeDataView>, s2: Seq<OpModeDataView>)
    requires
        s1.to_multiset() == s2.to_multiset(),
        keys_identify(s1.to_multiset()),
    ensures
        sorted_opmodes(s1) == sorted_opmodes(s2),
{
    lemma_sorted_opmodes(s1);
    lemma_sorted_opmodes(s2);
    lemma_listing_order_determined(sorted_opmodes(s1), sorted_opmodes(s2));
}

/// Where an opmode goes in a sorted list ([insertion_point]).
fn find_insertion_point(sorted: &Vec<OpModeData>, x: &OpModeData) -> (i: usize)
    ensures
        i == insertion_point(opmodes_view(sorted@), x@),
{
    let ghost sv = opmodes_view(sorted@);
    let mut i: usize = 0;
    assert(sv.skip(0) =~= sv);
    while i < sorted.len()
        invariant
            i <= sorted@.len(),
            sv == opmodes_view(sorted@),
            insertion_point(sv, x@) == i + insertion_point(sv.skip(i as int), x@),
        decreases sorted@.len() - i,
    {
        assert(sv.skip(i as int)[0] == sorted@[i as int]@);
        if opmode_before(x, &sorted[i]) {
            return i;
        }
        assert(sv.skip(i as int).drop_first() =~= sv.skip(i + 1));
        i += 1;
    }
    i
}

/// Returns a sorted list of opmodes (the robot's list, or none if it sent none yet)
///
/// Should always return the same order
pub fn get_opmodes(opmode_list: Option<Vec<OpModeData>>) -> (opmodes: Vec<OpModeData>)
    ensures
        opmodes_view(opmodes@) == sorted_opmodes(
            match opmode_list {
                Some(l) => opmodes_view(l@),
                None => Seq::empty(),
            },
        ),
{
    let mut rest = match opmode_list {
        Some(l) => l,
        None => Vec::new(),
    };
    let ghost lv = opmodes_view(rest@);
    let mut sorted: Vec<OpModeData> = Vec::new();
    let mut k: usize = 0;
    assert(opmodes_view(rest@) =~= lv.skip(0));
    let n: usize = rest.len();
    assert(lv.len() == n);
    assert(lv.take(0) =~= Seq::<OpModeDataView>::empty());
    // The opmodes are taken front to back, each inserted into the sorted list.
    while rest.len() > 0
        invariant
            lv.len() == k + rest@.len(),
            lv.len() <= usize::MAX,
            opmodes_view(rest@) == lv.skip(k as int),
            opmodes_view(sorted@) == sorted_opmodes(lv.take(k as int)),
        decreases rest@.len(),
    {
        let ghost before = rest@;
        let x = rest.remove(0);
        proof {
            assert(opmodes_view(before)[0] == x@);
            assert(rest@ =~= before.drop_first());
            assert(opmodes_view(rest@) =~= opmodes_view(before).drop_first());
            assert(lv.skip(k as int).drop_first() =~= lv.skip(k + 1));
            assert(lv.take(k + 1).drop_last() =~= lv.take(k as int));
            assert(lv.take(k + 1).last() == lv[k as int]);
        }
        let ghost sv = opmodes_view(sorted@);
        let i = find_insertion_point(&sorted, &x);
        let ghost xv = x@;
        proof {
            lemma_insertion_point(sv, xv);
        }
        sorted.insert(i, x);
        assert(opmodes_view(sorted@) =~= sv.insert(i as int, xv));
        k += 1;
    }
    assert(lv.take(k as int) =~= lv);
    sorted
}

/// The opmodes of one flavor, in the order given.
pub open spec fn of_flavor(s: Seq<OpModeDataView>, flavor: OpModeFlavor) -> Seq<OpModeDataView>
    decreases s.len(),
{
    if s.len() == 0 {
        Seq::empty()
    } else if s.last().flavor == flavor {
        of_flavor(s.drop_last(), flavor).push(s.last())
    } else {
        of_flavor(s.drop_last(), flavor)
    }
}

/// Keeps the opmodes of one flavor.
fn keep_flavor(opmodes: Vec<OpModeData>, flavor: OpModeFlavor) -> (kept: Vec<OpModeData>)
    ensures
        opmodes_view(kept@) == of_flavor(opmodes_view(opmodes@), flavor),
{
    let ghost lv = opmodes_view(opmodes@);
    let mut rest = opmodes;
    let mut kept: Vec<OpModeData> = Vec::new();
    let mut k: usize = 0;
    assert(opmodes_view(rest@) =~= lv.skip(0));
    let n: usize = rest.len();
    assert(lv.len() == n);
    assert(lv.take(0) =~= Seq::<OpModeDataView>::empty());
    while rest.len() > 0
        invariant
            lv.len() == k + rest@.len(),
            lv.len() <= usize::MAX,
            opmodes_view(rest@) == lv.skip(k as int),
            opmodes_view(kept@) == of_flavor(lv.take(k as int), flavor),
        decreases rest@.len(),
    {
        let ghost before = rest@;
        let x = rest.remove(0);
        proof {
            assert(opmodes_view(before)[0] == x@);
            assert(rest@ =~= before.drop_first());
            assert(opmodes_view(rest@) =~= opmodes_view(before).drop_first());
            assert(lv.skip(k as int).drop_first() =~= lv.skip(k + 1));
            assert(lv.take(k + 1).drop_last() =~= lv.take(k as int));
            assert(lv.take(k + 1).last() == lv[k as int]);
        }
        if x.flavor == flavor {
            let ghost kv = opmodes_view(kept@);
            let ghost xv = x@;
            kept.push(x);
            assert(opmodes_view(kept@) =~= kv.push(xv));
        }
        k += 1;
    }
    assert(lv.take(k as int) =~= lv);
    kept
}

/// The teleop and autonomous lists too are always in the same order: each depends only on
/// which opmodes the robot sent, as long as no two different opmodes share a group and a
/// name.
pub proof fn lemma_flavor_listing_independent_of_arrival(
    s1: Seq<OpModeDataView>,
    s2: Seq<OpModeDataView>,
    flavor: OpModeFlavor,
)
    requires
        s1.to_multiset() == s2.to_multiset(),
        keys_identify(s1.to_multiset()),
    ensures
        of_flavor(sorted_opmodes(s1), flavor) == of_flavor(sorted_opmodes(s2), flavor),
{
    lemma_listing_independent_of_arrival(s1, s2);
}

/// Returns a sorted list of teleop modes
///
/// Should always return the same order or opmodes
pub fn get_teleop_opmodes(opmode_list: Option<Vec<OpModeData>>) -> (opmodes: Vec<OpModeData>)
    ensures
        opmodes_view(opmodes@) == of_flavor(
            sorted_opmodes(
                match opmode_list {
                    Some(l) => opmodes_view(l@),
                    None => Seq::empty(),
                },
            ),
            OpModeFlavor::Teleop,
        ),
{
    keep_flavor(get_opmodes(opmode_list), OpModeFlavor::Teleop)
}

/// Returns a sorted list of auto modes
///
/// Should always return the same order or opmodes
pub fn get_auto_opmodes(opmode_list: Option<Vec<OpModeData>>) -> (opmodes: Vec<OpModeData>)
    ensures
        opmodes_view(opmodes@) == of_flavor(
            sorted_opmodes(
                match opmode_list {
                    Some(l) => opmodes_view(l@),
                    None => Seq::empty(),
                },
            ),
            OpModeFlavor::Autonomous,
        ),
{
    keep_flavor(get_opmodes(opmode_list), OpModeFlavor::Autonomous)
}

/// The opmode a list selection points at: the list's entry at the selected index (the
/// first if nothing is selected), if there is one.
pub open spec fn selected_in(list: Seq<OpModeDataView>, selected: Option<usize>) -> Option<
    OpModeDataView,
> {
    let i = match selected {
        Some(i) => i as int,
        None => 0,
    };
    if i < list.len() {
        Some(list[i])
    } else {
        None
    }
}

/// The opmode the user has selected: in the teleop list when that block is selected, in the
/// auto list when that one is, none otherwise.
pub open spec fn spec_selected_opmode(
    selected_block: u8,
    teleop_selected: Option<usize>,
    auto_selected: Option<usize>,
    opmodes: Seq<OpModeDataView>,
) -> Option<OpModeDataView> {
    if selected_block == TELEOP_BLOCK_ID {
        selected_in(of_flavor(sorted_opmodes(opmodes), OpModeFlavor::Teleop), teleop_selected)
    } else if selected_block == AUTO_BLOCK_ID {
        selected_in(of_flavor(sorted_opmodes(opmodes), OpModeFlavor::Autonomous), auto_selected)
    } else {
        None
    }
}

/// Takes the entry a selection points at out of a list.
fn take_selected(list: Vec<OpModeData>, selected: Option<usize>) -> (r: Option<OpModeData>)
    ensures
        match r {
            Some(o) => selected_in(opmodes_view(list@), selected) == Some(o@),
            None => selected_in(opmodes_view(list@), selected) is None,
        },
{
    let i: usize = match selected {
        Some(i) => i,
        None => 0,
    };
    let mut list = list;
    if i < list.len() {
        let ghost lv = opmodes_view(list@);
        assert(lv[i as int] == list@[i as int]@);
        Some(list.remove(i))
    } else {
        None
    }
}

/// Fetches the currently selected opmode, if any
pub fn get_selected_opmode(
    selected_block: u8,
    teleop_selected: Option<usize>,
    auto_selected: Option<usize>,
    opmode_list: Option<Vec<OpModeData>>,
) -> (r: Option<OpModeData>)
    ensures
        match r {
            Some(o) => spec_selected_opmode(
                selected_block,
                teleop_selected,
                auto_selected,
                match opmode_list {
                    Some(l) => opmodes_view(l@),
                    None => Seq::empty(),
                },
            ) == Some(o@),
            None => spec_selected_opmode(
                selected_block,
                teleop_selected,
                auto_selected,
                match opmode_list {
                    Some(l) => opmodes_view(l@),
                    None => Seq::empty(),
                },
            ) is None,
        },
{
    if selected_block == TELEOP_BLOCK_ID {
        take_selected(get_teleop_opmodes(opmode_list), teleop_selected)
    } else if selected_block == AUTO_BLOCK_ID {
        take_selected(get_auto_opmodes(opmode_list), auto_selected)
    } else {
        None
    }
}

} // verus!
