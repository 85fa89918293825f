//! The schema: what a structurally-parsed document must contain to make a
//! configuration, and the one error reported when it does not.
//!
//! Tags for `adjustment` and `interpolation` match case-insensitively;
//! easing names are case-sensitive. Bindings whose keys the schema does not
//! know are ignored; every required binding must be present and well-typed,
//! or validation fails with the first problem found, and nothing is ever
//! defaulted.

use vstd::prelude::*;
use vstd::string::StrSliceExecFns;
use vstd::string::StringSliceAdditionalSpecFns;
use crate::color::{color_of, parse_color, rgba_of};
use crate::easing::{Easing, easing_of_name, resolve_kind};
use crate::error::{ConfigError, ErrV, err_view};
use crate::model::{Adjustment, ConfigV, Configuration, Interpolation, Point, PointV, Position, Step, config_view, lemma_point_view_seq_insert0, point_view, point_view_seq};
use crate::raw::{Pair, PairV, RawDoc, RawDocV, Section, SectionV, Value, ValueV, docview, pview, pview_seq, secview, secview_seq, vview, vview_seq};
use crate::util::bytes_eq;

verus! {

pub open spec fn lower_byte(b: u8) -> u8 {
    if 65 <= b && b <= 90 {
        (b + 32) as u8
    } else {
        b
    }
}

pub open spec fn lower_bytes(s: Seq<u8>) -> Seq<u8> {
    s.map_values(|b: u8| lower_byte(b))
}

/// The closed `adjustment` vocabulary, matched without regard to case.
pub open spec fn sp_adjustment(tag: Seq<u8>) -> Option<Adjustment> {
    if lower_bytes(tag) == "fit".spec_bytes() {
        Some(Adjustment::Fit)
    } else if lower_bytes(tag) == "stretch".spec_bytes() {
        Some(Adjustment::Stretch)
    } else if lower_bytes(tag) == "zoom".spec_bytes() {
        Some(Adjustment::Zoom)
    } else {
        None
    }
}

/// The closed `interpolation` vocabulary, matched without regard to case.
pub open spec fn sp_interpolation(tag: Seq<u8>) -> Option<Interpolation> {
    if lower_bytes(tag) == "linear".spec_bytes() {
        Some(Interpolation::Linear)
    } else if lower_bytes(tag) == "spline".spec_bytes() {
        Some(Interpolation::Spline)
    } else {
        None
    }
}

pub open spec fn schema_v(path: Seq<u8>, reason: Seq<u8>) -> ErrV {
    ErrV::Schema { path, reason }
}

/// The first binding of `key` at or after index `k`.
pub open spec fn sp_find(ps: Seq<PairV>, key: Seq<u8>, k: int) -> Option<ValueV>
    decreases ps.len() - k,
{
    if !(0 <= k < ps.len()) {
        None
    } else if ps[k].key == key {
        Some(ps[k].val)
    } else {
        sp_find(ps, key, k + 1)
    }
}

/// The keyframes of a `steps` array from index `k` on; every element must
/// be an inline table.
pub open spec fn sp_steps(items: Seq<ValueV>, k: int) -> Result<Seq<Step>, ErrV>
    decreases items.len() - k,
{
    if !(0 <= k < items.len()) {
        Ok(Seq::empty())
    } else {
        match items[k] {
            ValueV::Tab(ps) => match sp_step(ps) {
                Err(e) => Err(e),
                Ok(st) => match sp_steps(items, k + 1) {
                    Err(e) => Err(e),
                    Ok(rest) => Ok(rest.insert(0, st)),
                },
            },
            _ => Err(schema_v("point.steps".spec_bytes(), "expected a table".spec_bytes())),
        }
    }
}

/// One keyframe table: `position` (a table with numeric `x` and `y`), a
/// `color` literal the color library accepts, a numeric `duration`, and an
/// `easing` name that resolves in the registry.
pub open spec fn sp_step(ps: Seq<PairV>) -> Result<Step, ErrV> {
    match sp_find(ps, "position".spec_bytes(), 0) {
        None => Err(
            schema_v("point.steps.position".spec_bytes(), "required field is missing".spec_bytes()),
        ),
        Some(pv) => match pv {
            ValueV::Tab(pps) => match sp_find(pps, "x".spec_bytes(), 0) {
                None => Err(
                    schema_v(
                        "point.steps.position.x".spec_bytes(),
                        "required field is missing".spec_bytes(),
                    ),
                ),
                Some(xv) => match xv {
                    ValueV::Num(x) => match sp_find(pps, "y".spec_bytes(), 0) {
                        None => Err(
                            schema_v(
                                "point.steps.position.y".spec_bytes(),
                                "required field is missing".spec_bytes(),
                            ),
                        ),
                        Some(yv) => match yv {
                            ValueV::Num(y) => match sp_find(ps, "color".spec_bytes(), 0) {
                                None => Err(
                                    schema_v(
                                        "point.steps.color".spec_bytes(),
                                        "required field is missing".spec_bytes(),
                                    ),
                                ),
                                Some(cv) => match cv {
                                    ValueV::Str(cs) => match color_of(cs) {
                                        None => Err(
                                            schema_v(
                                                "point.steps.color".spec_bytes(),
                                                "unrecognized color literal".spec_bytes(),
                                            ),
                                        ),
                                        Some(c) => match sp_find(ps, "duration".spec_bytes(), 0) {
                                            None => Err(
                                                schema_v(
                                                    "point.steps.duration".spec_bytes(),
                                                    "required field is missing".spec_bytes(),
                                                ),
                                            ),
                                            Some(dv) => match dv {
                                                ValueV::Num(dur) => match sp_find(
                                                    ps,
                                                    "easing".spec_bytes(),
                                                    0,
                                                ) {
                                                    None => Err(
                                                        schema_v(
                                                            "point.steps.easing".spec_bytes(),
                                                            "required field is missing".spec_bytes(),
                                                        ),
                                                    ),
                                                    Some(ev) => match ev {
                                                        ValueV::Str(en) => match easing_of_name(
                                                            en,
                                                        ) {
                                                            None => Err(
                                                                ErrV::UnknownEasing { name: en },
                                                            ),
                                                            Some(kind) => Ok(
                                                                Step {
                                                                    position: Position { x, y },
                                                                    color: rgba_of(c),
                                                                    duration: dur,
                                                                    easing: Easing { kind },
                                                                },
                                                            ),
                                                        },
                                                        _ => Err(
                                                            schema_v(
                                                                "point.steps.easing".spec_bytes(),
                                                                "expected a string".spec_bytes(),
                                                            ),
                                                        ),
                                                    },
                                                },
                                                _ => Err(
                                                    schema_v(
                                                        "point.steps.duration".spec_bytes(),
                                                        "expected a number".spec_bytes(),
                                                    ),
                                                ),
                                            },
                                        },
                                    },
                                    _ => Err(
                                        schema_v(
                                            "point.steps.color".spec_bytes(),
                                            "expected a string".spec_bytes(),
                                        ),
                                    ),
                                },
                            },
                            _ => Err(
                                schema_v(
                                    "point.steps.position.y".spec_bytes(),
                                    "expected a number".spec_bytes(),
                                ),
                            ),
                        },
                    },
                    _ => Err(
                        schema_v(
                            "point.steps.position.x".spec_bytes(),
                            "expected a number".spec_bytes(),
                        ),
                    ),
                },
            },
            _ => Err(
                schema_v("point.steps.position".spec_bytes(), "expected a table".spec_bytes()),
            ),
        },
    }
}

/// One `[[point]]` block: a numeric `delay`, an `interpolation` tag, and a
/// non-empty `steps` array of keyframe tables.
pub open spec fn sp_point(ps: Seq<PairV>) -> Result<PointV, ErrV> {
    match sp_find(ps, "delay".spec_bytes(), 0) {
        None => Err(schema_v("point.delay".spec_bytes(), "required field is missing".spec_bytes())),
        Some(dv) => match dv {
            ValueV::Num(delay) => match sp_find(ps, "interpolation".spec_bytes(), 0) {
                None => Err(
                    schema_v(
                        "point.interpolation".spec_bytes(),
                        "required field is missing".spec_bytes(),
                    ),
                ),
                Some(iv) => match iv {
                    ValueV::Str(tag) => match sp_interpolation(tag) {
                        None => Err(ErrV::UnknownInterpolation { tag }),
                        Some(interp) => match sp_find(ps, "steps".spec_bytes(), 0) {
                            None => Err(
                                schema_v(
                                    "point.steps".spec_bytes(),
                                    "required field is missing".spec_bytes(),
                                ),
                            ),
                            Some(sv) => match sv {
                                ValueV::Arr(items) => if items.len() == 0 {
                                    Err(
                                        schema_v(
                                            "point.steps".spec_bytes(),
                                            "must not be empty".spec_bytes(),
                                        ),
                                    )
                                } else {
                                    match sp_steps(items, 0) {
                                        Err(e) => Err(e),
                                        Ok(steps) => Ok(
                                            PointV { delay, interpolation: interp, steps },
                                        ),
                                    }
                                },
                                _ => Err(
                                    schema_v(
                                        "point.steps".spec_bytes(),
                                        "expected an array".spec_bytes(),
                                    ),
                                ),
                            },
                        },
                    },
                    _ => Err(
                        schema_v(
                            "point.interpolation".spec_bytes(),
                            "expected a string".spec_bytes(),
                        ),
                    ),
                },
            },
            _ => Err(schema_v("point.delay".spec_bytes(), "expected a number".spec_bytes())),
        },
    }
}

/// The points of the document, in order, from block index `k` on. Blocks
/// with another name are not part of the schema and are passed over.
pub open spec fn sp_points(secs: Seq<SectionV>, k: int) -> Result<Seq<PointV>, ErrV>
    decreases secs.len() - k,
{
    if !(0 <= k < secs.len()) {
        Ok(Seq::empty())
    } else if secs[k].name != "point".spec_bytes() {
        sp_points(secs, k + 1)
    } else {
        match sp_point(secs[k].pairs) {
            Err(e) => Err(e),
            Ok(p) => match sp_points(secs, k + 1) {
                Err(e) => Err(e),
                Ok(rest) => Ok(rest.insert(0, p)),
            },
        }
    }
}

/// The whole schema: a required `adjustment` tag, a required numeric
/// `speed`, and the `[[point]]` blocks in order.
pub open spec fn sp_validate(d: RawDocV) -> Result<ConfigV, ErrV> {
    match sp_find(d.top, "adjustment".spec_bytes(), 0) {
        None => Err(schema_v("adjustment".spec_bytes(), "required field is missing".spec_bytes())),
        Some(av) => match av {
            ValueV::Str(tag) => match sp_adjustment(tag) {
                None => Err(ErrV::UnknownAdjustment { tag }),
                Some(adj) => match sp_find(d.top, "speed".spec_bytes(), 0) {
                    None => Err(
                        schema_v("speed".spec_bytes(), "required field is missing".spec_bytes()),
                    ),
                    Some(sv) => match sv {
                        ValueV::Num(speed) => match sp_points(d.sections, 0) {
                            Err(e) => Err(e),
                            Ok(points) => Ok(ConfigV { adjustment: adj, speed, points }),
                        },
                        _ => Err(schema_v("speed".spec_bytes(), "expected a number".spec_bytes())),
                    },
                },
            },
            _ => Err(schema_v("adjustment".spec_bytes(), "expected a string".spec_bytes())),
        },
    }
}

/// A document without an `adjustment` binding is rejected with a schema
/// error: the mode is never defaulted from absence.
pub proof fn lemma_missing_adjustment_is_schema_error(d: RawDocV)
    requires
        sp_find(d.top, "adjustment".spec_bytes(), 0) is None,
    ensures
        sp_validate(d) == Err::<ConfigV, ErrV>(
            schema_v("adjustment".spec_bytes(), "required field is missing".spec_bytes()),
        ),
{
}

/// An `adjustment` tag outside the closed vocabulary is rejected, and the
/// error carries exactly that tag.
pub proof fn lemma_unknown_adjustment_is_reported(d: RawDocV, tag: Seq<u8>)
    requires
        sp_find(d.top, "adjustment".spec_bytes(), 0) == Some(ValueV::Str(tag)),
        sp_adjustment(tag) is None,
    ensures
        sp_validate(d) == Err::<ConfigV, ErrV>(ErrV::UnknownAdjustment { tag }),
{
}

fn mk_schema(path: &str, reason: &str) -> (e: ConfigError)
    ensures
        err_view(e) == (ErrV::Schema { path: path.spec_bytes(), reason: reason.spec_bytes() }),
{
    ConfigError::Schema { path: path.as_bytes_vec(), reason: reason.as_bytes_vec() }
}

fn eq_lower(a: &[u8], b: &[u8]) -> (r: bool)
    ensures
        r == (lower_bytes(a@) == b@),
{
    if a.len() != b.len() {
        return false;
    }
    let n = a.len();
    let mut i: usize = 0;
    while i < n
        invariant
            n == a@.len() == b@.len(),
            i <= n,
            forall|k: int| 0 <= k < i ==> lower_byte(a@[k]) == b@[k],
        decreases n - i,
    {
        let ab = *vstd::slice::slice_index_get(a, i);
        let lab = if 65 <= ab && ab <= 90 {
            ab + 32
        } else {
            ab
        };
        if lab != *vstd::slice::slice_index_get(b, i) {
            proof {
                assert(lower_bytes(a@)[i as int] == lower_byte(a@[i as int]));
            }
            return false;
        }
        i = i + 1;
    }
    proof {
        assert(lower_bytes(a@) =~= b@);
    }
    true
}

fn p_adjustment(tag: &[u8]) -> (r: Option<Adjustment>)
    ensures
        r == sp_adjustment(tag@),
{
    if eq_lower(tag, "fit".as_bytes()) {
        Some(Adjustment::Fit)
    } else if eq_lower(tag, "stretch".as_bytes()) {
        Some(Adjustment::Stretch)
    } else if eq_lower(tag, "zoom".as_bytes()) {
        Some(Adjustment::Zoom)
    } else {
        None
    }
}

fn p_interpolation(tag: &[u8]) -> (r: Option<Interpolation>)
    ensures
        r == sp_interpolation(tag@),
{
    if eq_lower(tag, "linear".as_bytes()) {
        Some(Interpolation::Linear)
    } else if eq_lower(tag, "spline".as_bytes()) {
        Some(Interpolation::Spline)
    } else {
        None
    }
}

fn find_from<'a>(ps: &'a Vec<Pair>, key: &[u8], k: usize) -> (r: Option<&'a Value>)
    requires
        k <= ps@.len(),
    ensures
        match r {
            Some(v) => sp_find(pview_seq(ps@), key@, k as int) == Some(vview(*v)),
            None => sp_find(pview_seq(ps@), key@, k as int) is None,
        },
    decreases ps@.len() - k,
{
    if k >= ps.len() {
        return None;
    }
    let p = vstd::slice::slice_index_get(ps.as_slice(), k);
    proof {
        assert(pview_seq(ps@)[k as int] == pview(ps@[k as int]));
    }
    if bytes_eq(p.key.as_slice(), key) {
        Some(&p.val)
    } else {
        find_from(ps, key, k + 1)
    }
}

/// Check one keyframe table, exactly as [`sp_step`] reads it.
pub(crate) fn validate_step(ps: &Vec<Pair>) -> (r: Result<Step, ConfigError>)
    ensures
        match r {
            Ok(st) => sp_step(pview_seq(ps@)) == Ok::<Step, ErrV>(st),
            Err(e) => sp_step(pview_seq(ps@)) == Err::<Step, ErrV>(err_view(e)),
        },
{
    let pos_v = match find_from(ps, "position".as_bytes(), 0) {
        None => {
            return Err(mk_schema("point.steps.position", "required field is missing"));
        },
        Some(v) => v,
    };
    let pps = match pos_v {
        Value::Tab(pps) => pps,
        _ => {
            return Err(mk_schema("point.steps.position", "expected a table"));
        },
    };
    let x = match find_from(pps, "x".as_bytes(), 0) {
        None => {
            return Err(mk_schema("point.steps.position.x", "required field is missing"));
        },
        Some(v) => match v {
            Value::Num(n) => *n,
            _ => {
                return Err(mk_schema("point.steps.position.x", "expected a number"));
            },
        },
    };
    let y = match find_from(pps, "y".as_bytes(), 0) {
        None => {
            return Err(mk_schema("point.steps.position.y", "required field is missing"));
        },
        Some(v) => match v {
            Value::Num(n) => *n,
            _ => {
                return Err(mk_schema("point.steps.position.y", "expected a number"));
            },
        },
    };
    let cs = match find_from(ps, "color".as_bytes(), 0) {
        None => {
            return Err(mk_schema("point.steps.color", "required field is missing"));
        },
        Some(v) => match v {
            Value::Str(cs) => cs,
            _ => {
                return Err(mk_schema("point.steps.color", "expected a string"));
            },
        },
    };
    let color = match parse_color(cs.as_slice()) {
        None => {
            return Err(mk_schema("point.steps.color", "unrecognized color literal"));
        },
        Some(c) => c,
    };
    let duration = match find_from(ps, "duration".as_bytes(), 0) {
        None => {
            return Err(mk_schema("point.steps.duration", "required field is missing"));
        },
        Some(v) => match v {
            Value::Num(n) => *n,
            _ => {
                return Err(mk_schema("point.steps.duration", "expected a number"));
            },
        },
    };
    let easing = match find_from(ps, "easing".as_bytes(), 0) {
        None => {
            return Err(mk_schema("point.steps.easing", "required field is missing"));
        },
        Some(v) => match v {
            Value::Str(en) => match resolve_kind(en.as_slice()) {
                None => {
                    return Err(
                        ConfigError::UnknownEasing {
                            name: vstd::slice::slice_to_vec(en.as_slice()),
                        },
                    );
                },
                Some(kind) => Easing { kind },
            },
            _ => {
                return Err(mk_schema("point.steps.easing", "expected a string"));
            },
        },
    };
    Ok(Step { position: Position { x, y }, color, duration, easing })
}

/// Check the elements of a `steps` array, exactly as [`sp_steps`] reads
/// them.
pub(crate) fn validate_steps(items: &Vec<Value>, k: usize) -> (r: Result<Vec<Step>, ConfigError>)
    requires
        k <= items@.len(),
    ensures
        match r {
            Ok(sts) => sp_steps(vview_seq(items@), k as int) == Ok::<Seq<Step>, ErrV>(sts@),
            Err(e) => sp_steps(vview_seq(items@), k as int) == Err::<Seq<Step>, ErrV>(err_view(e)),
        },
    decreases items@.len() - k,
{
    if k >= items.len() {
        return Ok(Vec::new());
    }
    let v = vstd::slice::slice_index_get(items.as_slice(), k);
    proof {
        assert(vview_seq(items@)[k as int] == vview(items@[k as int]));
    }
    match v {
        Value::Tab(ps) => match validate_step(ps) {
            Err(e) => Err(e),
            Ok(st) => match validate_steps(items, k + 1) {
                Err(e) => Err(e),
                Ok(rest) => {
                    let mut out = rest;
                    out.insert(0, st);
                    Ok(out)
                },
            },
        },
        _ => Err(mk_schema("point.steps", "expected a table")),
    }
}

/// Check one `[[point]]` block, exactly as [`sp_point`] reads it.
pub(crate) fn validate_point(ps: &Vec<Pair>) -> (r: Result<Point, ConfigError>)
    ensures
        match r {
            Ok(p) => sp_point(pview_seq(ps@)) == Ok::<PointV, ErrV>(point_view(p)),
            Err(e) => sp_point(pview_seq(ps@)) == Err::<PointV, ErrV>(err_view(e)),
        },
{
    let delay = match find_from(ps, "delay".as_bytes(), 0) {
        None => {
            return Err(mk_schema("point.delay", "required field is missing"));
        },
        Some(v) => match v {
            Value::Num(n) => *n,
            _ => {
                return Err(mk_schema("point.delay", "expected a number"));
            },
        },
    };
    let interpolation = match find_from(ps, "interpolation".as_bytes(), 0) {
        None => {
            return Err(mk_schema("point.interpolation", "required field is missing"));
        },
        Some(v) => match v {
            Value::Str(tag) => match p_interpolation(tag.as_slice()) {
                None => {
                    return Err(
                        ConfigError::UnknownInterpolation {
                            tag: vstd::slice::slice_to_vec(tag.as_slice()),
                        },
                    );
                },
                Some(interp) => interp,
            },
            _ => {
                return Err(mk_schema("point.interpolation", "expected a string"));
            },
        },
    };
    let steps = match find_from(ps, "steps".as_bytes(), 0) {
        None => {
            return Err(mk_schema("point.steps", "required field is missing"));
        },
        Some(v) => match v {
            Value::Arr(items) => {
                if items.len() == 0 {
                    return Err(mk_schema("point.steps", "must not be empty"));
                }
                match validate_steps(items, 0) {
                    Err(e) => {
                        return Err(e);
                    },
                    Ok(sts) => sts,
                }
            },
            _ => {
                return Err(mk_schema("point.steps", "expected an array"));
            },
        },
    };
    Ok(Point { delay, interpolation, steps })
}

/// Check the blocks from index `k` on, exactly as [`sp_points`] reads
/// them.
pub(crate) fn validate_points(secs: &Vec<Section>, k: usize) -> (r: Result<Vec<Point>, ConfigError>)
    requires
        k <= secs@.len(),
    ensures
        match r {
            Ok(ps) => sp_points(secview_seq(secs@), k as int) == Ok::<Seq<PointV>, ErrV>(
                point_view_seq(ps@),
            ),
            Err(e) => sp_points(secview_seq(secs@), k as int) == Err::<Seq<PointV>, ErrV>(
                err_view(e),
            ),
        },
    decreases secs@.len() - k,
{
    if k >= secs.len() {
        let out: Vec<Point> = Vec::new();
        proof {
            assert(point_view_seq(out@) =~= Seq::<PointV>::empty());
        }
        return Ok(out);
    }
    let sec = vstd::slice::slice_index_get(secs.as_slice(), k);
    proof {
        assert(secview_seq(secs@)[k as int] == secview(secs@[k as int]));
    }
    if !bytes_eq(sec.name.as_slice(), "point".as_bytes()) {
        return validate_points(secs, k + 1);
    }
    match validate_point(&sec.pairs) {
        Err(e) => Err(e),
        Ok(p) => match validate_points(secs, k + 1) {
            Err(e) => Err(e),
            Ok(rest) => {
                let ghost grest = rest@;
                let mut out = rest;
                out.insert(0, p);
                proof {
                    lemma_point_view_seq_insert0(grest, p);
                }
                Ok(out)
            },
        },
    }
}

/// Check a whole parsed document, exactly as [`sp_validate`] reads it.
pub fn validate(d: &RawDoc) -> (r: Result<Configuration, ConfigError>)
    ensures
        match r {
            Ok(c) => sp_validate(docview(*d)) == Ok::<ConfigV, ErrV>(config_view(c)),
            Err(e) => sp_validate(docview(*d)) == Err::<ConfigV, ErrV>(err_view(e)),
        },
{
    let adjustment = match find_from(&d.top, "adjustment".as_bytes(), 0) {
        None => {
            return Err(mk_schema("adjustment", "required field is missing"));
        },
        Some(v) => match v {
            Value::Str(tag) => match p_adjustment(tag.as_slice()) {
                None => {
                    return Err(
                        ConfigError::UnknownAdjustment {
                            tag: vstd::slice::slice_to_vec(tag.as_slice()),
                        },
                    );
                },
                Some(adj) => adj,
            },
            _ => {
                return Err(mk_schema("adjustment", "expected a string"));
            },
        },
    };
    let speed = match find_from(&d.top, "speed".as_bytes(), 0) {
        None => {
            return Err(mk_schema("speed", "required field is missing"));
        },
        Some(v) => match v {
            Value::Num(n) => *n,
            _ => {
                return Err(mk_schema("speed", "expected a number"));
            },
        },
    };
    match validate_points(&d.sections, 0) {
        Err(e) => Err(e),
        Ok(points) => Ok(Configuration { adjustment, speed, points }),
    }
}

} // verus!
