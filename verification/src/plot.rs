//! The SVG rendering of a trajectory: a uniform scale factor fitted so
//! that the larger physical extent exactly fills the surface width, a
//! y-flip into SVG's downward axis, one circle per sample, a rectangle
//! for the basket, the motion path, and an animated marker bound to it.

use crate::numfmt::centi_to_string;
use crate::numfmt::spec_centi;
use crate::sim::Sample;
use crate::sim::Trajectory;
use crate::svg_gen::Color;
use crate::svg_gen::SVG;
use vstd::arithmetic::div_mod::lemma_div_is_ordered;
use vstd::arithmetic::div_mod::lemma_div_multiples_vanish;
use vstd::arithmetic::div_mod::lemma_div_pos_is_pos;
use vstd::prelude::*;
use vstd::string::StrSliceExecFns;
use vstd::string::StringExecFns;

verus! {

/// Largest coordinate magnitude the renderer admits, in micrometers;
/// every position the kinematics can produce is well within it.
pub const MAX_SVG_COORD_UM: i64 = 5_000_000_000_000;

/// Largest admitted surface dimension, in pixels.
pub const MAX_SVG_PX: u32 = 10_000;

/// A physical coordinate scaled into hundredths of a pixel:
/// `v * s100 / m`, where `s100` is the surface width in hundredths of
/// a pixel and `m` the physical extent fitted to it; the quotient of
/// the magnitude, with the sign put back.
pub open spec fn spec_scale_centi(v: int, s100: int, m: int) -> int {
    if v >= 0 {
        (v * s100) / m
    } else {
        -((-v * s100) / m)
    }
}

/// Scales a physical coordinate into hundredths of a pixel.
pub fn scale_centi(v_um: i64, svg_x_max: u32, m_um: i64) -> (c: i64)
    requires
        -MAX_SVG_COORD_UM <= v_um <= MAX_SVG_COORD_UM,
        1 <= m_um,
        1 <= svg_x_max <= MAX_SVG_PX,
    ensures
        c == spec_scale_centi(v_um as int, (svg_x_max as int) * 100, m_um as int),
        -MAX_SVG_COORD_UM * (MAX_SVG_PX as int) * 100 <= c <= MAX_SVG_COORD_UM * (
        MAX_SVG_PX as int) * 100,
        v_um == m_um ==> c == (svg_x_max as int) * 100,
{
    let s100 = (svg_x_max as u64) * 100;
    proof {
        let b = MAX_SVG_COORD_UM * (MAX_SVG_PX as int) * 100;
        if v_um >= 0 {
            assert(0 <= (v_um as int) * ((svg_x_max as int) * 100) <= b) by (nonlinear_arith)
                requires
                    0 <= v_um <= MAX_SVG_COORD_UM,
                    1 <= svg_x_max <= MAX_SVG_PX,
                    b == MAX_SVG_COORD_UM * (MAX_SVG_PX as int) * 100,
            ;
            lemma_div_pos_is_pos((v_um as int) * ((svg_x_max as int) * 100), m_um as int);
            lemma_div_is_ordered((v_um as int) * ((svg_x_max as int) * 100), b, m_um as int);
        } else {
            assert(0 <= (-(v_um as int)) * ((svg_x_max as int) * 100) <= b) by (nonlinear_arith)
                requires
                    -MAX_SVG_COORD_UM <= v_um < 0,
                    1 <= svg_x_max <= MAX_SVG_PX,
                    b == MAX_SVG_COORD_UM * (MAX_SVG_PX as int) * 100,
            ;
            lemma_div_pos_is_pos((-(v_um as int)) * ((svg_x_max as int) * 100), m_um as int);
            lemma_div_is_ordered((-(v_um as int)) * ((svg_x_max as int) * 100), b, m_um as int);
        }
        if v_um == m_um {
            lemma_div_multiples_vanish((svg_x_max as int) * 100, m_um as int);
            assert((m_um as int) * ((svg_x_max as int) * 100) == (m_um as int) * ((
            svg_x_max as int) * 100));
        }
        assert(b <= i64::MAX);
    }
    if v_um >= 0 {
        (((v_um as u64) * s100) / (m_um as u64)) as i64
    } else {
        -(((((-v_um) as u64) * s100) / (m_um as u64)) as i64)
    }
}

/// Fitting the maximum extent to the surface lands it exactly on the
/// surface width: scaling `m` itself gives exactly `s100` hundredths
/// of a pixel.
pub proof fn lemma_scale_fit(s100: int, m: int)
    requires
        1 <= m,
        0 <= s100,
    ensures
        spec_scale_centi(m, s100, m) == s100,
{
    lemma_div_multiples_vanish(s100, m);
}

/// The larger of the two coordinates of a sample.
pub open spec fn spec_sample_extent(s: Sample) -> int {
    vstd::math::max(s.x_um as int, s.y_um as int)
}

/// The largest coordinate, x or y, over the first `n` samples.
pub open spec fn spec_max_extent(samples: Seq<Sample>, n: int) -> int
    decreases n,
{
    if n <= 1 {
        spec_sample_extent(samples[0])
    } else {
        vstd::math::max(spec_max_extent(samples, n - 1), spec_sample_extent(samples[n - 1]))
    }
}

/// The maximum extent bounds every coordinate of the first `n` samples
/// and is attained by one of them.
pub proof fn lemma_max_extent_attained(samples: Seq<Sample>, n: int)
    requires
        1 <= n <= samples.len(),
    ensures
        forall|i: int|
            0 <= i < n ==> #[trigger] samples[i].x_um <= spec_max_extent(samples, n)
                && samples[i].y_um <= spec_max_extent(samples, n),
        exists|i: int| 0 <= i < n && spec_sample_extent(#[trigger] samples[i]) == spec_max_extent(
            samples,
            n,
        ),
    decreases n,
{
    if n <= 1 {
        assert(spec_sample_extent(samples[0]) == spec_max_extent(samples, n));
    } else {
        lemma_max_extent_attained(samples, n - 1);
        if spec_max_extent(samples, n) == spec_sample_extent(samples[n - 1]) {
            assert(spec_sample_extent(samples[n - 1]) == spec_max_extent(samples, n));
        } else {
            let i = choose|i: int|
                0 <= i < n - 1 && spec_sample_extent(#[trigger] samples[i]) == spec_max_extent(
                    samples,
                    n - 1,
                );
            assert(spec_sample_extent(samples[i]) == spec_max_extent(samples, n));
        }
    }
}

/// Computes the largest coordinate, x or y, over a nonempty sample
/// sequence.
pub fn max_extent(samples: &Vec<Sample>) -> (m: i64)
    requires
        samples@.len() >= 1,
    ensures
        m == spec_max_extent(samples@, samples@.len() as int),
{
    let s0 = samples[0];
    let mut m: i64 = if s0.x_um >= s0.y_um {
        s0.x_um
    } else {
        s0.y_um
    };
    let mut i: usize = 1;
    while i < samples.len()
        invariant
            1 <= i <= samples@.len(),
            m == spec_max_extent(samples@, i as int),
        decreases samples@.len() - i,
    {
        let s = samples[i];
        if s.x_um > m {
            m = s.x_um;
        }
        if s.y_um > m {
            m = s.y_um;
        }
        i += 1;
    }
    m
}

/// One trace circle, at already-scaled and flipped coordinates in
/// hundredths of a pixel; green when the sample entered the target,
/// blue otherwise.
pub open spec fn spec_circle_str(x: int, y: int, entered: bool) -> Seq<char> {
    "<circle cx=\""@ + spec_centi(x) + "\" cy=\""@ + spec_centi(y) + "\" r=\"2.00\" fill=\""@ + (
    if entered {
        "green"@
    } else {
        "blue"@
    }) + "\" />\n"@
}

fn circle_elem(x: i64, y: i64, entered: bool) -> (r: String)
    requires
        x != i64::MIN,
        y != i64::MIN,
    ensures
        r@ == spec_circle_str(x as int, y as int, entered),
{
    let mut s = "<circle cx=\"".to_owned();
    s.append(centi_to_string(x).as_str());
    s.append("\" cy=\"");
    s.append(centi_to_string(y).as_str());
    s.append("\" r=\"2.00\" fill=\"");
    s.append(if entered {
        "green"
    } else {
        "blue"
    });
    s.append("\" />\n");
    proof {
        assert(s@ =~= spec_circle_str(x as int, y as int, entered));
    }
    s
}

/// One segment of the motion path, at scaled, flipped coordinates.
pub open spec fn spec_seg_str(x: int, y: int) -> Seq<char> {
    "L"@ + spec_centi(x) + ","@ + spec_centi(y) + "\n"@
}

fn seg_elem(x: i64, y: i64) -> (r: String)
    requires
        x != i64::MIN,
        y != i64::MIN,
    ensures
        r@ == spec_seg_str(x as int, y as int),
{
    let mut s = "L".to_owned();
    s.append(centi_to_string(x).as_str());
    s.append(",");
    s.append(centi_to_string(y).as_str());
    s.append("\n");
    proof {
        assert(s@ =~= spec_seg_str(x as int, y as int));
    }
    s
}

/// The scaled x coordinate of a sample, hundredths of a pixel.
pub open spec fn spec_px(s: Sample, s100: int, m: int) -> int {
    spec_scale_centi(s.x_um as int, s100, m)
}

/// The scaled, flipped y coordinate of a sample, hundredths of a pixel.
pub open spec fn spec_py(s: Sample, s100: int, sy100: int, m: int) -> int {
    sy100 - spec_scale_centi(s.y_um as int, s100, m)
}

/// The trace circles of the first `n` samples, in order.
pub open spec fn spec_circles_upto(
    samples: Seq<Sample>,
    n: int,
    s100: int,
    sy100: int,
    m: int,
) -> Seq<char>
    decreases n,
{
    if n <= 0 {
        Seq::empty()
    } else {
        spec_circles_upto(samples, n - 1, s100, sy100, m) + spec_circle_str(
            spec_px(samples[n - 1], s100, m),
            spec_py(samples[n - 1], s100, sy100, m),
            samples[n - 1].entered,
        )
    }
}

/// The motion-path segments of the first `n` samples, in order.
pub open spec fn spec_segs_upto(
    samples: Seq<Sample>,
    n: int,
    s100: int,
    sy100: int,
    m: int,
) -> Seq<char>
    decreases n,
{
    if n <= 0 {
        Seq::empty()
    } else {
        spec_segs_upto(samples, n - 1, s100, sy100, m) + spec_seg_str(
            spec_px(samples[n - 1], s100, m),
            spec_py(samples[n - 1], s100, sy100, m),
        )
    }
}

/// The basket rectangle, centred on the scaled target position.
pub open spec fn spec_basket_rect(bx: int, by: int, s100: int, sy100: int, m: int) -> Seq<char> {
    "<rect x=\""@ + spec_centi(spec_scale_centi(bx, s100, m) - 1000) + "\" y=\""@ + spec_centi(
        sy100 - spec_scale_centi(by, s100, m) - 200,
    ) + "\" width=\"20.00\" height=\"4.00\" style=\"fill:green;stroke:green;stroke-width:1.00\" />\n"@
}

/// The opening of the motion path, at the first sample's position.
pub open spec fn spec_path_header(s0: Sample, s100: int, sy100: int, m: int) -> Seq<char> {
    "<path id=\"motionPath\" fill=\"none\" d=\"M"@ + spec_centi(spec_px(s0, s100, m)) + ","@
        + spec_centi(spec_py(s0, s100, sy100, m)) + "\n"@
}

/// The animated marker: a yellow circle bound to the motion path by
/// id, playing for three seconds, freezing at the end, looping.
pub open spec fn spec_token_and_animate() -> Seq<char> {
    "<circle id=\"circle\" cx=\"0.00\" cy=\"0.00\" r=\"3\" fill=\"yellow\" />\n"@
        + "<animateMotion\n    xlink:href=\"#circle\"\n    dur=\"3s\"\n    begin=\"0s\"\n    fill=\"freeze\"\n    repeatCount=\"indefinite\">\n    <mpath xlink:href=\"#motionPath\" />\n</animateMotion>"@
}

/// The whole element string the renderer produces: circles, basket,
/// motion path over every sample, and the animated marker.
pub open spec fn spec_svg_elem(
    samples: Seq<Sample>,
    bx: int,
    by: int,
    s100: int,
    sy100: int,
    m: int,
) -> Seq<char> {
    spec_circles_upto(samples, samples.len() as int, s100, sy100, m) + spec_basket_rect(
        bx,
        by,
        s100,
        sy100,
        m,
    ) + spec_path_header(samples[0], s100, sy100, m) + spec_segs_upto(
        samples,
        samples.len() as int,
        s100,
        sy100,
        m,
    ) + "\" />\n"@ + spec_token_and_animate()
}

/// Every input coordinate the renderer admits.
pub open spec fn spec_svg_plottable(samples: Seq<Sample>, bx: int, by: int) -> bool {
    &&& samples.len() >= 1
    &&& -MAX_SVG_COORD_UM <= bx <= MAX_SVG_COORD_UM
    &&& -MAX_SVG_COORD_UM <= by <= MAX_SVG_COORD_UM
    &&& forall|i: int|
        0 <= i < samples.len() ==> -MAX_SVG_COORD_UM <= #[trigger] samples[i].x_um
            <= MAX_SVG_COORD_UM && -MAX_SVG_COORD_UM <= samples[i].y_um <= MAX_SVG_COORD_UM
    &&& spec_max_extent(samples, samples.len() as int) >= 1
}

/// Renders a trajectory onto a fresh black surface: the scale factor
/// fits the larger physical extent exactly to the surface width, and
/// the body is one element string holding the circles, the basket, the
/// motion path and the animated marker, in that order.
pub fn plot_trajectory_svg(
    traj: &Trajectory,
    basket_pos_x_um: i64,
    basket_pos_y_um: i64,
    svg_x_max: u32,
    svg_y_max: u32,
) -> (svg: SVG)
    requires
        spec_svg_plottable(traj.samples@, basket_pos_x_um as int, basket_pos_y_um as int),
        1 <= svg_x_max <= MAX_SVG_PX,
        1 <= svg_y_max <= MAX_SVG_PX,
    ensures
        svg.width == svg_x_max,
        svg.height == svg_y_max,
        svg.background_color == Some(Color::Black),
        svg.elem_str_vec@.len() == 1,
        svg.elem_str_vec@[0]@ == spec_svg_elem(
            traj.samples@,
            basket_pos_x_um as int,
            basket_pos_y_um as int,
            (svg_x_max as int) * 100,
            (svg_y_max as int) * 100,
            spec_max_extent(traj.samples@, traj.samples@.len() as int),
        ),
{
    let ghost s100 = (svg_x_max as int) * 100;
    let ghost sy100g = (svg_y_max as int) * 100;
    let m = max_extent(&traj.samples);
    let ghost mg = m as int;
    let sy100 = (svg_y_max as i64) * 100;
    let n = traj.samples.len();
    let mut es = String::new();
    proof {
        assert(es@ =~= spec_circles_upto(traj.samples@, 0, s100, sy100g, mg));
    }
    let mut i: usize = 0;
    while i < n
        invariant
            i <= n,
            n == traj.samples@.len(),
            spec_svg_plottable(traj.samples@, basket_pos_x_um as int, basket_pos_y_um as int),
            1 <= svg_x_max <= MAX_SVG_PX,
            1 <= svg_y_max <= MAX_SVG_PX,
            m == spec_max_extent(traj.samples@, n as int),
            mg == m as int,
            s100 == (svg_x_max as int) * 100,
            sy100g == (svg_y_max as int) * 100,
            sy100 == sy100g,
            es@ == spec_circles_upto(traj.samples@, i as int, s100, sy100g, mg),
        decreases n - i,
    {
        let s = traj.samples[i];
        let xc = scale_centi(s.x_um, svg_x_max, m);
        let yc = sy100 - scale_centi(s.y_um, svg_x_max, m);
        es.append(circle_elem(xc, yc, s.entered).as_str());
        i += 1;
    }
    let bxc = scale_centi(basket_pos_x_um, svg_x_max, m);
    let byc = scale_centi(basket_pos_y_um, svg_x_max, m);
    es.append("<rect x=\"");
    es.append(centi_to_string(bxc - 1000).as_str());
    es.append("\" y=\"");
    es.append(centi_to_string(sy100 - byc - 200).as_str());
    es.append(
        "\" width=\"20.00\" height=\"4.00\" style=\"fill:green;stroke:green;stroke-width:1.00\" />\n",
    );
    proof {
        assert(es@ =~= spec_circles_upto(traj.samples@, n as int, s100, sy100g, mg)
            + spec_basket_rect(basket_pos_x_um as int, basket_pos_y_um as int, s100, sy100g, mg));
    }
    let s0 = traj.samples[0];
    let x0c = scale_centi(s0.x_um, svg_x_max, m);
    let y0c = sy100 - scale_centi(s0.y_um, svg_x_max, m);
    es.append("<path id=\"motionPath\" fill=\"none\" d=\"M");
    es.append(centi_to_string(x0c).as_str());
    es.append(",");
    es.append(centi_to_string(y0c).as_str());
    es.append("\n");
    let ghost prefix2 = spec_circles_upto(traj.samples@, n as int, s100, sy100g, mg)
        + spec_basket_rect(basket_pos_x_um as int, basket_pos_y_um as int, s100, sy100g, mg)
        + spec_path_header(traj.samples@[0], s100, sy100g, mg);
    proof {
        assert(es@ =~= prefix2);
    }
    let mut k: usize = 0;
    while k < n
        invariant
            k <= n,
            n == traj.samples@.len(),
            spec_svg_plottable(traj.samples@, basket_pos_x_um as int, basket_pos_y_um as int),
            1 <= svg_x_max <= MAX_SVG_PX,
            1 <= svg_y_max <= MAX_SVG_PX,
            m == spec_max_extent(traj.samples@, n as int),
            mg == m as int,
            s100 == (svg_x_max as int) * 100,
            sy100g == (svg_y_max as int) * 100,
            sy100 == sy100g,
            prefix2 == spec_circles_upto(traj.samples@, n as int, s100, sy100g, mg)
                + spec_basket_rect(basket_pos_x_um as int, basket_pos_y_um as int, s100, sy100g, mg)
                + spec_path_header(traj.samples@[0], s100, sy100g, mg),
            es@ == prefix2 + spec_segs_upto(traj.samples@, k as int, s100, sy100g, mg),
        decreases n - k,
    {
        proof {
            assert(es@ + spec_seg_str(
                spec_px(traj.samples@[k as int], s100, mg),
                spec_py(traj.samples@[k as int], s100, sy100g, mg),
            ) =~= prefix2 + spec_segs_upto(traj.samples@, k + 1, s100, sy100g, mg));
        }
        let s = traj.samples[k];
        let xc = scale_centi(s.x_um, svg_x_max, m);
        let yc = sy100 - scale_centi(s.y_um, svg_x_max, m);
        es.append(seg_elem(xc, yc).as_str());
        k += 1;
    }
    es.append("\" />\n");
    es.append("<circle id=\"circle\" cx=\"0.00\" cy=\"0.00\" r=\"3\" fill=\"yellow\" />\n");
    es.append(
        "<animateMotion\n    xlink:href=\"#circle\"\n    dur=\"3s\"\n    begin=\"0s\"\n    fill=\"freeze\"\n    repeatCount=\"indefinite\">\n    <mpath xlink:href=\"#motionPath\" />\n</animateMotion>",
    );
    proof {
        assert(es@ =~= spec_svg_elem(
            traj.samples@,
            basket_pos_x_um as int,
            basket_pos_y_um as int,
            s100,
            sy100g,
            mg,
        ));
    }
    let mut svg = SVG::new(svg_x_max, svg_y_max, Some(Color::Black));
    svg.add_elem(es);
    svg
}

/// Validates the renderer's inputs and renders when they are admitted:
/// an empty trajectory, an out-of-range coordinate, a non-positive
/// maximum extent or an out-of-range surface size gives `None`.
pub fn try_plot_trajectory_svg(
    traj: &Trajectory,
    basket_pos_x_um: i64,
    basket_pos_y_um: i64,
    svg_x_max: u32,
    svg_y_max: u32,
) -> (r: Option<SVG>)
    ensures
        r.is_some() <==> (spec_svg_plottable(
            traj.samples@,
            basket_pos_x_um as int,
            basket_pos_y_um as int,
        ) && 1 <= svg_x_max <= MAX_SVG_PX && 1 <= svg_y_max <= MAX_SVG_PX),
        r.is_some() ==> {
            let svg = r.unwrap();
            &&& svg.width == svg_x_max
            &&& svg.height == svg_y_max
            &&& svg.background_color == Some(Color::Black)
            &&& svg.elem_str_vec@.len() == 1
            &&& svg.elem_str_vec@[0]@ == spec_svg_elem(
                traj.samples@,
                basket_pos_x_um as int,
                basket_pos_y_um as int,
                (svg_x_max as int) * 100,
                (svg_y_max as int) * 100,
                spec_max_extent(traj.samples@, traj.samples@.len() as int),
            )
        },
{
    if traj.samples.len() == 0 {
        return None;
    }
    if !(1 <= svg_x_max && svg_x_max <= MAX_SVG_PX && 1 <= svg_y_max && svg_y_max <= MAX_SVG_PX) {
        return None;
    }
    if !(-MAX_SVG_COORD_UM <= basket_pos_x_um && basket_pos_x_um <= MAX_SVG_COORD_UM
        && -MAX_SVG_COORD_UM <= basket_pos_y_um && basket_pos_y_um <= MAX_SVG_COORD_UM) {
        return None;
    }
    let n = traj.samples.len();
    let mut i: usize = 0;
    while i < n
        invariant
            i <= n,
            n == traj.samples@.len(),
            forall|j: int|
                0 <= j < i ==> -MAX_SVG_COORD_UM <= #[trigger] traj.samples@[j].x_um
                    <= MAX_SVG_COORD_UM && -MAX_SVG_COORD_UM <= traj.samples@[j].y_um
                    <= MAX_SVG_COORD_UM,
        decreases n - i,
    {
        let s = traj.samples[i];
        if !(-MAX_SVG_COORD_UM <= s.x_um && s.x_um <= MAX_SVG_COORD_UM && -MAX_SVG_COORD_UM
            <= s.y_um && s.y_um <= MAX_SVG_COORD_UM) {
            assert(!(-MAX_SVG_COORD_UM <= traj.samples@[i as int].x_um <= MAX_SVG_COORD_UM
                && -MAX_SVG_COORD_UM <= traj.samples@[i as int].y_um <= MAX_SVG_COORD_UM));
            return None;
        }
        i += 1;
    }
    let m = max_extent(&traj.samples);
    if m < 1 {
        return None;
    }
    Some(
        plot_trajectory_svg(traj, basket_pos_x_um, basket_pos_y_um, svg_x_max, svg_y_max),
    )
}

} // verus!
