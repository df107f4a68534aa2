use vstd::prelude::*;

verus! {

/// One of the four trigonometric values a frame's matrices are built from.
#[derive(Clone, Copy, Debug, PartialEq, Eq, Structural)]
pub enum Factor {
    SinX,
    CosX,
    SinY,
    CosY,
}

/// One entry of a 4x4 matrix, as a formula in the sines and cosines of the
/// two rotation angles.
#[derive(Clone, Copy, Debug, PartialEq, Eq, Structural)]
pub enum Entry {
    /// A constant, in hundredths.
    Constant { hundredths: i32 },
    /// One trigonometric value, negated or not.
    Trig { negated: bool, factor: Factor },
    /// The product of two trigonometric values, negated or not.
    Product { negated: bool, left: Factor, right: Factor },
}

/// Sines and cosines of the two angles in fixed point: `unit` stands for 1.
#[derive(Clone, Copy, Debug, PartialEq, Eq)]
pub struct FixedTrig {
    pub sin_x: i16,
    pub cos_x: i16,
    pub sin_y: i16,
    pub cos_y: i16,
    pub unit: i16,
}

pub open spec fn factor_value(f: Factor, t: FixedTrig) -> int {
    match f {
        Factor::SinX => t.sin_x as int,
        Factor::CosX => t.cos_x as int,
        Factor::SinY => t.sin_y as int,
        Factor::CosY => t.cos_y as int,
    }
}

pub open spec fn signed(negated: bool, v: int) -> int {
    if negated {
        -v
    } else {
        v
    }
}

/// The value of `e` at `t`, times `100 * unit * unit`: exact for every entry.
pub open spec fn scaled_value(e: Entry, t: FixedTrig) -> int {
    let u = t.unit as int;
    match e {
        Entry::Constant { hundredths } => hundredths * u * u,
        Entry::Trig { negated, factor } => signed(negated, 100 * factor_value(factor, t) * u),
        Entry::Product { negated, left, right } => signed(
            negated,
            100 * factor_value(left, t) * factor_value(right, t),
        ),
    }
}

/// The values of the entries of `m` at `t`, scaled as in `scaled_value`.
pub open spec fn scaled_values(m: Seq<Entry>, t: FixedTrig) -> Seq<int> {
    m.map_values(|e: Entry| scaled_value(e, t))
}

pub open spec fn constant(h: int) -> Entry {
    Entry::Constant { hundredths: h as i32 }
}

pub open spec fn trig(negated: bool, factor: Factor) -> Entry {
    Entry::Trig { negated, factor }
}

pub open spec fn product(negated: bool, left: Factor, right: Factor) -> Entry {
    Entry::Product { negated, left, right }
}

/// The model-view matrix, column by column: a rotation about the second
/// axis composed with one about the first, then a translation of -6 along
/// the third axis.
pub open spec fn model_view_spec() -> Seq<Entry> {
    seq![
        trig(false, Factor::CosY), constant(0), trig(false, Factor::SinY), constant(0),
        product(false, Factor::SinX, Factor::SinY), trig(false, Factor::CosX),
        product(true, Factor::SinX, Factor::CosY), constant(0),
        product(true, Factor::CosX, Factor::SinY), trig(false, Factor::SinX),
        product(false, Factor::CosX, Factor::CosY), constant(0),
        constant(0), constant(0), constant(-600), constant(100),
    ]
}

/// The projection matrix, column by column: a fixed affine map, the same
/// at every angle.
pub open spec fn projection_spec() -> Seq<Entry> {
    seq![
        constant(100), constant(0), constant(0), constant(0),
        constant(0), constant(100), constant(0), constant(0),
        constant(0), constant(0), constant(-100), constant(-100),
        constant(0), constant(0), constant(-2), constant(0),
    ]
}

impl Entry {
    /// The value of this entry at `t`, times `100 * unit * unit`.
    pub fn scaled_value(&self, t: &FixedTrig) -> (r: i64)
        ensures
            r as int == scaled_value(*self, *t),
    {
        let u = t.unit as i64;
        match *self {
            Entry::Constant { hundredths } => {
                proof {
                    assert(0 <= u * u <= 0x4000_0000) by (nonlinear_arith)
                        requires
                            -0x8000 <= u <= 0x7fff,
                    ;
                    assert(-0x8000_0000 * 0x4000_0000 <= hundredths * (u * u) <= 0x8000_0000
                        * 0x4000_0000) by (nonlinear_arith)
                        requires
                            -0x8000_0000 <= hundredths <= 0x7fff_ffff,
                            0 <= u * u <= 0x4000_0000,
                    ;
                    assert(hundredths * u * u == hundredths * (u * u)) by (nonlinear_arith);
                }
                hundredths as i64 * (u * u)
            },
            Entry::Trig { negated, factor } => {
                let f = factor_of(factor, t) as i64;
                proof {
                    assert(-0x4000_0000 <= f * u <= 0x4000_0000) by (nonlinear_arith)
                        requires
                            -0x8000 <= u <= 0x7fff,
                            -0x8000 <= f <= 0x7fff,
                    ;
                    assert(100 * f * u == 100 * (f * u)) by (nonlinear_arith);
                }
                let v = 100 * (f * u);
                if negated {
                    -v
                } else {
                    v
                }
            },
            Entry::Product { negated, left, right } => {
                let a = factor_of(left, t) as i64;
                let b = factor_of(right, t) as i64;
                proof {
                    assert(-0x4000_0000 <= a * b <= 0x4000_0000) by (nonlinear_arith)
                        requires
                            -0x8000 <= a <= 0x7fff,
                            -0x8000 <= b <= 0x7fff,
                    ;
                    assert(100 * a * b == 100 * (a * b)) by (nonlinear_arith);
                }
                let v = 100 * (a * b);
                if negated {
                    -v
                } else {
                    v
                }
            },
        }
    }
}

fn factor_of(f: Factor, t: &FixedTrig) -> (r: i16)
    ensures
        r as int == factor_value(f, *t),
{
    match f {
        Factor::SinX => t.sin_x,
        Factor::CosX => t.cos_x,
        Factor::SinY => t.sin_y,
        Factor::CosY => t.cos_y,
    }
}

/// The model-view matrix's entries, column by column.
pub fn model_view_layout() -> (r: Vec<Entry>)
    ensures
        r@ == model_view_spec(),
{
    let r = vec![
        Entry::Trig { negated: false, factor: Factor::CosY },
        Entry::Constant { hundredths: 0 },
        Entry::Trig { negated: false, factor: Factor::SinY },
        Entry::Constant { hundredths: 0 },
        Entry::Product { negated: false, left: Factor::SinX, right: Factor::SinY },
        Entry::Trig { negated: false, factor: Factor::CosX },
        Entry::Product { negated: true, left: Factor::SinX, right: Factor::CosY },
        Entry::Constant { hundredths: 0 },
        Entry::Product { negated: true, left: Factor::CosX, right: Factor::SinY },
        Entry::Trig { negated: false, factor: Factor::SinX },
        Entry::Product { negated: false, left: Factor::CosX, right: Factor::CosY },
        Entry::Constant { hundredths: 0 },
        Entry::Constant { hundredths: 0 },
        Entry::Constant { hundredths: 0 },
        Entry::Constant { hundredths: -600 },
        Entry::Constant { hundredths: 100 },
    ];
    assert(r@ =~= model_view_spec());
    r
}

/// The projection matrix's entries, column by column.
pub fn projection_layout() -> (r: Vec<Entry>)
    ensures
        r@ == projection_spec(),
{
    let r = vec![
        Entry::Constant { hundredths: 100 },
        Entry::Constant { hundredths: 0 },
        Entry::Constant { hundredths: 0 },
        Entry::Constant { hundredths: 0 },
        Entry::Constant { hundredths: 0 },
        Entry::Constant { hundredths: 100 },
        Entry::Constant { hundredths: 0 },
        Entry::Constant { hundredths: 0 },
        Entry::Constant { hundredths: 0 },
        Entry::Constant { hundredths: 0 },
        Entry::Constant { hundredths: -100 },
        Entry::Constant { hundredths: -100 },
        Entry::Constant { hundredths: 0 },
        Entry::Constant { hundredths: 0 },
        Entry::Constant { hundredths: -2 },
        Entry::Constant { hundredths: 0 },
    ];
    assert(r@ =~= projection_spec());
    r
}

/// The model-view matrix at `t`: a function of the sines and cosines alone,
/// so equal angles give equal matrices.
pub proof fn lemma_model_view_determined_by_angles(t1: FixedTrig, t2: FixedTrig)
    requires
        t1 == t2,
    ensures
        scaled_values(model_view_spec(), t1) == scaled_values(model_view_spec(), t2),
{
}

/// The projection matrix has the same values at every pair of angles.
pub proof fn lemma_projection_constant(t1: FixedTrig, t2: FixedTrig)
    requires
        t1.unit == t2.unit,
    ensures
        scaled_values(projection_spec(), t1) == scaled_values(projection_spec(), t2),
{
    assert(scaled_values(projection_spec(), t1) =~= scaled_values(projection_spec(), t2));
}

/// At zero angles (sines 0, cosines 1) the model-view matrix is the
/// identity followed by a translation of -6 along the third axis.
pub proof fn lemma_model_view_at_zero(t: FixedTrig)
    requires
        t.sin_x == 0,
        t.sin_y == 0,
        t.cos_x == t.unit,
        t.cos_y == t.unit,
    ensures
        scaled_values(model_view_spec(), t) == seq![
            1int, 0, 0, 0,
            0, 1, 0, 0,
            0, 0, 1, 0,
            0, 0, -6, 1,
        ].map_values(|v: int| v * 100 * (t.unit as int) * (t.unit as int)),
{
    let u = t.unit as int;
    assert(100 * u * u == 100 * (u * u)) by (nonlinear_arith);
    assert(-600 * u * u == -6 * 100 * u * u) by (nonlinear_arith);
    assert(scaled_values(model_view_spec(), t) =~= seq![
        1int, 0, 0, 0,
        0, 1, 0, 0,
        0, 0, 1, 0,
        0, 0, -6, 1,
    ].map_values(|v: int| v * 100 * u * u));
}

} // verus!
