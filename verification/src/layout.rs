//! The monitor layout engine.
//!
//! `layout_batch_command` turns a desired monitor arrangement into the single
//! atomic compositor batch the application submits: every Extended monitor is
//! placed at the running sum of the widths of the prior Extended monitors,
//! and every Copy monitor inherits the geometry of the first Extended monitor
//! in the list (or keeps its own when no Extended monitor exists).
//! `brightness_command` and `rotation_command` build the narrow per-monitor
//! commands, and build nothing for non-physical monitors.

use vstd::prelude::*;
use vstd::string::*;
use crate::monitor::{Monitor, MonitorMode, Orientation, transform_of};
use crate::protocol::CommandSpec;
use crate::text::{dec_str, int_str, milli_str, push_i64, push_milli, push_u64};

verus! {

/// The compositor monitor query failed, or its output was not a well-formed
/// monitor list.
#[derive(Debug)]
pub enum QueryError {
    /// The query command exited with a failure; the text is its diagnostic.
    Command(String),
    /// The query output could not be parsed into the monitor shape.
    Parse(String),
}

/// The compositor rejected the layout batch; the text is its diagnostic.
#[derive(Debug)]
pub enum ApplyError {
    Compositor(String),
}

/// A brightness or rotation call failed; the text is its diagnostic.
#[derive(Debug)]
pub enum ControlError {
    Command(String),
}

/// The sum of the widths of the Extended monitors among the first `i`: the
/// horizontal offset at which the next Extended monitor is placed.
pub open spec fn ext_x(ms: Seq<Monitor>, i: int) -> int
    decreases i,
{
    if i <= 0 {
        0
    } else {
        ext_x(ms, i - 1) + if ms[i - 1].eff_mode() == MonitorMode::Extended {
            ms[i - 1].width as int
        } else {
            0
        }
    }
}

/// The index of the first monitor at or after `k` whose effective mode is
/// Extended, if any.
pub open spec fn first_extended_from(ms: Seq<Monitor>, k: int) -> Option<int>
    decreases ms.len() - k,
{
    if k < 0 || k >= ms.len() {
        None
    } else if ms[k].eff_mode() == MonitorMode::Extended {
        Some(k)
    } else {
        first_extended_from(ms, k + 1)
    }
}

/// The index of the mirror source: the first Extended monitor in the list.
pub open spec fn mirror_index(ms: Seq<Monitor>) -> Option<int> {
    first_extended_from(ms, 0)
}

/// Whether monitor `i` takes the mirror source's geometry.
pub open spec fn takes_mirror(ms: Seq<Monitor>, i: int) -> bool {
    ms[i].eff_mode() == MonitorMode::Copy && mirror_index(ms) is Some
}

/// The width assigned to monitor `i` by the layout.
pub open spec fn placed_width(ms: Seq<Monitor>, i: int) -> int {
    if takes_mirror(ms, i) {
        ms[mirror_index(ms)->0].width as int
    } else {
        ms[i].width as int
    }
}

/// The height assigned to monitor `i` by the layout.
pub open spec fn placed_height(ms: Seq<Monitor>, i: int) -> int {
    if takes_mirror(ms, i) {
        ms[mirror_index(ms)->0].height as int
    } else {
        ms[i].height as int
    }
}

/// The refresh rate (in millihertz) assigned to monitor `i` by the layout.
pub open spec fn placed_rate(ms: Seq<Monitor>, i: int) -> nat {
    if takes_mirror(ms, i) {
        ms[mirror_index(ms)->0].refresh_millihz as nat
    } else {
        ms[i].refresh_millihz as nat
    }
}

/// The horizontal position assigned to monitor `i`: the mirror source's
/// offset for mirroring monitors, the running Extended offset otherwise.
pub open spec fn placed_x(ms: Seq<Monitor>, i: int) -> int {
    if takes_mirror(ms, i) {
        ext_x(ms, mirror_index(ms)->0)
    } else {
        ext_x(ms, i)
    }
}

/// The vertical position assigned to monitor `i`.
pub open spec fn placed_y(ms: Seq<Monitor>, i: int) -> int {
    if takes_mirror(ms, i) {
        ms[mirror_index(ms)->0].y as int
    } else {
        ms[i].y as int
    }
}

/// The two compositor directives contributed by monitor `i`: the
/// geometry/position directive and the scale directive.
pub open spec fn monitor_directive(ms: Seq<Monitor>, i: int) -> Seq<char> {
    "keyword monitor "@ + ms[i].name@ + ","@ + int_str(placed_width(ms, i)) + "x"@ + int_str(
        placed_height(ms, i),
    ) + "@"@ + milli_str(placed_rate(ms, i)) + ","@ + int_str(placed_x(ms, i)) + "x"@ + int_str(
        placed_y(ms, i),
    ) + "; keyword monitor "@ + ms[i].name@ + " scale "@ + milli_str(
        ms[i].eff_scale_milli() as nat,
    ) + ";"@
}

/// The batch text contributed by the first `i` monitors, in list order.
pub open spec fn batch_prefix(ms: Seq<Monitor>, i: int) -> Seq<char>
    decreases i,
{
    if i <= 0 {
        Seq::<char>::empty()
    } else {
        batch_prefix(ms, i - 1) + monitor_directive(ms, i - 1)
    }
}

/// The whole layout batch for a monitor list.
pub open spec fn layout_batch(ms: Seq<Monitor>) -> Seq<char> {
    batch_prefix(ms, ms.len() as int)
}

/// Every prefix sum of Extended widths fits the compositor's coordinate
/// range.
pub open spec fn offsets_fit(ms: Seq<Monitor>) -> bool {
    forall|t: int| 0 <= t <= ms.len() ==> i32::MIN <= #[trigger] ext_x(ms, t) <= i32::MAX
}

proof fn lemma_first_ext_prefix(ms: Seq<Monitor>, j: int)
    requires
        0 <= j <= ms.len(),
        forall|k: int| 0 <= k < j ==> (#[trigger] ms[k].eff_mode()) != MonitorMode::Extended,
    ensures
        first_extended_from(ms, 0) == first_extended_from(ms, j),
    decreases j,
{
    if j > 0 {
        lemma_first_ext_prefix(ms, j - 1);
    }
}

proof fn lemma_ext_x_zero(ms: Seq<Monitor>, j: int)
    requires
        0 <= j <= ms.len(),
        forall|k: int| 0 <= k < j ==> (#[trigger] ms[k].eff_mode()) != MonitorMode::Extended,
    ensures
        ext_x(ms, j) == 0,
    decreases j,
{
    if j > 0 {
        lemma_ext_x_zero(ms, j - 1);
    }
}

/// Whether the layout's horizontal offsets all fit the compositor's
/// coordinate range; `layout_batch_command` requires this.
pub fn layout_fits(monitors: &Vec<Monitor>) -> (r: bool)
    ensures
        r == offsets_fit(monitors@),
{
    let ghost ms = monitors@;
    let n = monitors.len();
    let mut cur: i64 = 0;
    let mut i: usize = 0;
    while i < n
        invariant
            ms == monitors@,
            i <= n,
            n == ms.len(),
            cur == ext_x(ms, i as int),
            i32::MIN <= cur <= i32::MAX,
            forall|t: int| 0 <= t <= i ==> i32::MIN <= #[trigger] ext_x(ms, t) <= i32::MAX,
        decreases n - i,
    {
        let m = &monitors[i];
        match m.mode_or_default() {
            MonitorMode::Extended => {
                cur = cur + m.width as i64;
                if cur > i32::MAX as i64 || cur < i32::MIN as i64 {
                    assert(ext_x(ms, i + 1) == cur);
                    return false;
                }
            },
            MonitorMode::Copy => {
            },
        }
        i += 1;
    }
    true
}

/// One monitor's private geometry assignment while the batch is built.
#[derive(Clone, Copy)]
struct PlacedGeometry {
    width: i32,
    height: i32,
    refresh_millihz: u32,
    x: i32,
    y: i32,
}

/// Appends the two directives of one monitor to the batch.
#[verifier::rlimit(80)]
fn push_directive(batch: &mut String, name: &str, geo: PlacedGeometry, scale_milli: u32)
    ensures
        final(batch)@ == old(batch)@ + ("keyword monitor "@ + name@ + ","@ + int_str(
            geo.width as int,
        ) + "x"@ + int_str(geo.height as int) + "@"@ + milli_str(geo.refresh_millihz as nat) + ","@
            + int_str(geo.x as int) + "x"@ + int_str(geo.y as int) + "; keyword monitor "@ + name@
            + " scale "@ + milli_str(scale_milli as nat) + ";"@),
{
    batch.append("keyword monitor ");
    batch.append(name);
    batch.append(",");
    push_i64(batch, geo.width as i64);
    batch.append("x");
    push_i64(batch, geo.height as i64);
    batch.append("@");
    push_milli(batch, geo.refresh_millihz as u64);
    batch.append(",");
    push_i64(batch, geo.x as i64);
    batch.append("x");
    push_i64(batch, geo.y as i64);
    batch.append("; keyword monitor ");
    batch.append(name);
    batch.append(" scale ");
    push_milli(batch, scale_milli as u64);
    batch.append(";");
    assert(final(batch)@ =~= old(batch)@ + ("keyword monitor "@ + name@ + ","@ + int_str(
        geo.width as int,
    ) + "x"@ + int_str(geo.height as int) + "@"@ + milli_str(geo.refresh_millihz as nat) + ","@
        + int_str(geo.x as int) + "x"@ + int_str(geo.y as int) + "; keyword monitor "@ + name@
        + " scale "@ + milli_str(scale_milli as nat) + ";"@));
}

/// Builds the atomic batch that applies the desired layout, or `None` for an
/// empty monitor list, for which no compositor call is to be issued.
pub fn layout_batch_command(monitors: &Vec<Monitor>) -> (r: Option<String>)
    requires
        offsets_fit(monitors@),
    ensures
        r is Some <==> monitors@.len() > 0,
        r matches Some(b) ==> b@ == layout_batch(monitors@),
{
    let ghost ms = monitors@;
    let n = monitors.len();
    if n == 0 {
        return None;
    }
    // First pass: the geometry of the first Extended monitor, which every
    // Copy monitor will mirror. Its offset is the sum of the widths of the
    // Extended monitors before it, and so always zero.
    let mut mirror: Option<PlacedGeometry> = None;
    let mut found = false;
    let mut j: usize = 0;
    while j < n && !found
        invariant
            ms == monitors@,
            j <= n,
            n == ms.len(),
            !found ==> mirror is None && forall|k: int|
                0 <= k < j ==> (#[trigger] ms[k].eff_mode()) != MonitorMode::Extended,
            found ==> j < n && ms[j as int].eff_mode() == MonitorMode::Extended && (forall|k: int|
                0 <= k < j ==> (#[trigger] ms[k].eff_mode()) != MonitorMode::Extended) && (
            mirror matches Some(g) && g.width == ms[j as int].width && g.height == ms[
                j as int
            ].height && g.refresh_millihz == ms[j as int].refresh_millihz && g.x == 0 && g.y == ms[
                j as int
            ].y),
        decreases n - j + (if found { 0int } else { 1int }),
    {
        let m = &monitors[j];
        match m.mode_or_default() {
            MonitorMode::Extended => {
                mirror = Some(
                    PlacedGeometry {
                        width: m.width,
                        height: m.height,
                        refresh_millihz: m.refresh_millihz,
                        x: 0,
                        y: m.y,
                    },
                );
                found = true;
            },
            MonitorMode::Copy => {
                j += 1;
            },
        }
    }
    proof {
        if found {
            lemma_first_ext_prefix(ms, j as int);
            lemma_ext_x_zero(ms, j as int);
            assert(mirror_index(ms) == Some(j as int));
            assert(ext_x(ms, j as int) == 0);
        } else {
            lemma_first_ext_prefix(ms, n as int);
            assert(mirror_index(ms) is None);
        }
    }
    // Second pass: place each monitor and emit its directives.
    let mut batch = String::new();
    let mut cur_x: i32 = 0;
    let mut i: usize = 0;
    while i < n
        invariant
            ms == monitors@,
            i <= n,
            n == ms.len(),
            offsets_fit(ms),
            cur_x == ext_x(ms, i as int),
            batch@ == batch_prefix(ms, i as int),
            match mirror_index(ms) {
                Some(mi) => mirror matches Some(g) && 0 <= mi < n && g.width == ms[mi].width
                    && g.height == ms[mi].height && g.refresh_millihz == ms[mi].refresh_millihz
                    && g.x == ext_x(ms, mi) && g.y == ms[mi].y,
                None => mirror is None,
            },
        decreases n - i,
    {
        let m = &monitors[i];
        let scale = m.scale_or_override();
        let geo = match m.mode_or_default() {
            MonitorMode::Copy => match &mirror {
                Some(g) => *g,
                None => PlacedGeometry {
                    width: m.width,
                    height: m.height,
                    refresh_millihz: m.refresh_millihz,
                    x: cur_x,
                    y: m.y,
                },
            },
            MonitorMode::Extended => PlacedGeometry {
                width: m.width,
                height: m.height,
                refresh_millihz: m.refresh_millihz,
                x: cur_x,
                y: m.y,
            },
        };
        proof {
            assert(geo.width == placed_width(ms, i as int));
            assert(geo.height == placed_height(ms, i as int));
            assert(geo.refresh_millihz == placed_rate(ms, i as int));
            assert(geo.x == placed_x(ms, i as int));
            assert(geo.y == placed_y(ms, i as int));
        }
        push_directive(&mut batch, m.name.as_str(), geo, scale);
        assert(batch@ =~= batch_prefix(ms, i + 1));
        match m.mode_or_default() {
            MonitorMode::Extended => {
                assert(ext_x(ms, i + 1) == cur_x + m.width);
                cur_x = cur_x + m.width;
            },
            MonitorMode::Copy => {
                assert(ext_x(ms, i + 1) == cur_x);
            },
        }
        i += 1;
    }
    Some(batch)
}

/// The vendor-control arguments that set a physical monitor's brightness,
/// scoped to its serial number: the percentage written to the brightness
/// control.
pub open spec fn brightness_args(serial: Seq<char>, pct: u8) -> Seq<Seq<char>> {
    seq!["setvcp"@, "10"@, dec_str(pct as nat), "--sn"@, serial]
}

/// Builds the hardware brightness command for a physical monitor, or `None`
/// for any other device type, for which no external call is to be issued and
/// the request succeeds as a no-op.
pub fn brightness_command(monitor: &Monitor, pct: u8) -> (r: Option<CommandSpec>)
    requires
        pct <= 100,
    ensures
        r is Some <==> monitor.is_physical(),
        r matches Some(c) ==> c.program@ == "ddcutil"@ && c.args.deep_view() == brightness_args(
            monitor.serial@,
            pct,
        ),
{
    if !monitor.physical() {
        return None;
    }
    let mut args: Vec<String> = Vec::new();
    args.push(String::from_str("setvcp"));
    args.push(String::from_str("10"));
    let mut p = String::new();
    push_u64(&mut p, pct as u64);
    args.push(p);
    args.push(String::from_str("--sn"));
    args.push(monitor.serial.clone());
    assert(args.deep_view() =~~= brightness_args(monitor.serial@, pct));
    Some(CommandSpec { program: String::from_str("ddcutil"), args })
}

/// The single compositor directive that rotates one monitor.
pub open spec fn rotation_directive(name: Seq<char>, o: Orientation) -> Seq<char> {
    "keyword monitor "@ + name + " transform "@ + dec_str(transform_of(o))
}

/// Builds the compositor rotation command for a physical monitor, or `None`
/// for any other device type, for which no external call is to be issued and
/// the request succeeds as a no-op.
pub fn rotation_command(monitor: &Monitor, orientation: Orientation) -> (r: Option<CommandSpec>)
    ensures
        r is Some <==> monitor.is_physical(),
        r matches Some(c) ==> c.program@ == "hyprctl"@ && c.args.deep_view() == seq![
            rotation_directive(monitor.name@, orientation),
        ],
{
    if !monitor.physical() {
        return None;
    }
    let mut d = String::from_str("keyword monitor ");
    d.append(monitor.name.as_str());
    d.append(" transform ");
    match orientation {
        Orientation::Portrait => d.append("1"),
        Orientation::Landscape => d.append("0"),
    }
    proof {
        reveal_strlit("0");
        reveal_strlit("1");
        assert(dec_str(0) =~= "0"@);
        assert(dec_str(1) =~= "1"@);
        assert(d@ =~= rotation_directive(monitor.name@, orientation));
    }
    let mut args: Vec<String> = Vec::new();
    args.push(d);
    assert(args.deep_view() =~~= seq![rotation_directive(monitor.name@, orientation)]);
    Some(CommandSpec { program: String::from_str("hyprctl"), args })
}

/// Every Extended monitor occupies a horizontal band starting at the sum of
/// the widths of the prior Extended monitors, with its own geometry.
pub proof fn lemma_extended_band(ms: Seq<Monitor>, i: int)
    requires
        0 <= i < ms.len(),
        ms[i].eff_mode() == MonitorMode::Extended,
    ensures
        placed_x(ms, i) == ext_x(ms, i),
        placed_width(ms, i) == ms[i].width,
        placed_height(ms, i) == ms[i].height,
        placed_rate(ms, i) == ms[i].refresh_millihz,
        placed_y(ms, i) == ms[i].y,
{
}

/// Every Copy monitor in a list that has an Extended monitor is assigned the
/// geometry and position of the first Extended monitor in list order.
pub proof fn lemma_copy_mirrors_first_extended(ms: Seq<Monitor>, i: int)
    requires
        0 <= i < ms.len(),
        ms[i].eff_mode() == MonitorMode::Copy,
        mirror_index(ms) is Some,
    ensures
        ({
            let mi = mirror_index(ms)->0;
            &&& placed_width(ms, i) == ms[mi].width
            &&& placed_height(ms, i) == ms[mi].height
            &&& placed_rate(ms, i) == ms[mi].refresh_millihz
            &&& placed_x(ms, i) == ext_x(ms, mi)
            &&& placed_y(ms, i) == ms[mi].y
        }),
{
}

/// A Copy monitor in a list without any Extended monitor keeps its own
/// width, height, refresh rate and vertical position, and stands at offset
/// zero (the running Extended offset, which no monitor advanced).
pub proof fn lemma_copy_without_extended_keeps_geometry(ms: Seq<Monitor>, i: int)
    requires
        0 <= i < ms.len(),
        ms[i].eff_mode() == MonitorMode::Copy,
        forall|k: int| 0 <= k < ms.len() ==> (#[trigger] ms[k].eff_mode())
            != MonitorMode::Extended,
    ensures
        placed_width(ms, i) == ms[i].width,
        placed_height(ms, i) == ms[i].height,
        placed_rate(ms, i) == ms[i].refresh_millihz,
        placed_y(ms, i) == ms[i].y,
        placed_x(ms, i) == 0,
{
    lemma_first_ext_prefix(ms, ms.len() as int);
    lemma_ext_x_zero(ms, i);
}

} // verus!
