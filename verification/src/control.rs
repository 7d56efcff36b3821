use crate::CameraError;
use vstd::prelude::*;

verus! {

/// The sign bit of an IEEE-754 double's bit pattern.
pub const FLOAT_SIGN_BIT: u64 = 0x8000_0000_0000_0000;

/// Identifies one tunable device parameter. The named variants cover the
/// controls drivers commonly expose; any other control travels under
/// `Other` with the driver's raw identifier.
#[derive(Clone, Copy, Debug, PartialEq, Eq, Structural)]
pub enum ControlId {
    Brightness,
    Contrast,
    Hue,
    Saturation,
    Sharpness,
    Gamma,
    WhiteBalance,
    BacklightComp,
    Gain,
    Pan,
    Tilt,
    Zoom,
    Exposure,
    Iris,
    Focus,
    Other(u128),
}

/// A tagged control value, written by a consumer and read by the worker.
/// `Float` carries the IEEE-754 bit pattern of the 64-bit value; the edge
/// code converts with `f64::to_bits` / `f64::from_bits`, and order on such
/// values is the IEEE total order (see `float_order_key`).
#[derive(Clone, Copy, Debug, PartialEq, Eq, Structural)]
pub enum ControlValueSetter {
    Integer(i64),
    Float(u64),
    Boolean(bool),
}

/// The declared shape of one control's values. Range bounds of a
/// `FloatRange` are IEEE-754 bit patterns, like `ControlValueSetter::Float`.
/// `Other` stands for every control kind outside this closed set; no setter
/// matches it, so writing such a control is always rejected.
#[derive(Clone, Copy, Debug, PartialEq, Eq, Structural)]
pub enum ControlDescription {
    Integer,
    IntegerRange { min: i64, max: i64, step: i64 },
    Float,
    FloatRange { min: u64, max: u64, step: u64 },
    Boolean,
    Other,
}

/// Maps the bit pattern of an IEEE-754 double to a key whose unsigned
/// integer order is the IEEE total order on doubles: patterns with the sign
/// bit set (negative values) are reversed and placed below all others, the
/// rest keep their order above them.
pub open spec fn float_order_key(bits: u64) -> int {
    if bits >= FLOAT_SIGN_BIT {
        (u64::MAX - bits) as int
    } else {
        bits + FLOAT_SIGN_BIT
    }
}

/// Compares two IEEE-754 bit patterns in the total order of the doubles
/// they encode.
pub fn float_le(a: u64, b: u64) -> (r: bool)
    ensures
        r == (float_order_key(a) <= float_order_key(b)),
{
    let ka: u64 = if a >= FLOAT_SIGN_BIT {
        u64::MAX - a
    } else {
        a + FLOAT_SIGN_BIT
    };
    let kb: u64 = if b >= FLOAT_SIGN_BIT {
        u64::MAX - b
    } else {
        b + FLOAT_SIGN_BIT
    };
    ka <= kb
}

/// Whether a description accepts a setter: the kinds must agree, and a
/// ranged description additionally requires the value to lie within its
/// declared `[min, max]`.
pub open spec fn accepts(desc: ControlDescription, v: ControlValueSetter) -> bool {
    match desc {
        ControlDescription::Integer => v is Integer,
        ControlDescription::IntegerRange { min, max, .. } => {
            v matches ControlValueSetter::Integer(x) && min <= x <= max
        },
        ControlDescription::Float => v is Float,
        ControlDescription::FloatRange { min, max, .. } => {
            v matches ControlValueSetter::Float(b) && float_order_key(min) <= float_order_key(b)
                <= float_order_key(max)
        },
        ControlDescription::Boolean => v is Boolean,
        ControlDescription::Other => false,
    }
}

/// Runtime check of `accepts`.
pub fn value_accepted(desc: &ControlDescription, v: &ControlValueSetter) -> (r: bool)
    ensures
        r == accepts(*desc, *v),
{
    match desc {
        ControlDescription::Integer => matches!(v, ControlValueSetter::Integer(_)),
        ControlDescription::IntegerRange { min, max, .. } => {
            match v {
                ControlValueSetter::Integer(x) => *min <= *x && *x <= *max,
                _ => false,
            }
        },
        ControlDescription::Float => matches!(v, ControlValueSetter::Float(_)),
        ControlDescription::FloatRange { min, max, .. } => {
            match v {
                ControlValueSetter::Float(b) => float_le(*min, *b) && float_le(*b, *max),
                _ => false,
            }
        },
        ControlDescription::Boolean => matches!(v, ControlValueSetter::Boolean(_)),
        ControlDescription::Other => false,
    }
}

/// One tunable device parameter: its identifier, its declared value shape,
/// and the value the device last accepted. Enumerated once at session
/// start; the set of identifiers is immutable thereafter, the values are
/// not.
#[derive(Clone, Copy, Debug)]
pub struct CameraControl {
    pub id: ControlId,
    pub description: ControlDescription,
    pub value: ControlValueSetter,
}

impl CameraControl {
    /// A control is well formed when its current value matches its own
    /// declared description.
    pub open spec fn wf(self) -> bool {
        accepts(self.description, self.value)
    }

    /// Builds a control, refusing a current value that its own description
    /// rejects.
    pub fn new(id: ControlId, description: ControlDescription, value: ControlValueSetter) -> (r:
        Option<CameraControl>)
        ensures
            r is Some <==> accepts(description, value),
            r matches Some(c) ==> c == (CameraControl { id, description, value }) && c.wf(),
    {
        if value_accepted(&description, &value) {
            Some(CameraControl { id, description, value })
        } else {
            None
        }
    }
}

/// No identifier occurs twice.
pub open spec fn unique_ids(s: Seq<CameraControl>) -> bool {
    forall|i: int, j: int| 0 <= i < j < s.len() ==> s[i].id != s[j].id
}

/// The first control of the sequence carrying the identifier, if any.
pub open spec fn lookup(s: Seq<CameraControl>, id: ControlId) -> Option<CameraControl>
    decreases s.len(),
{
    if s.len() == 0 {
        None
    } else if s[0].id == id {
        Some(s[0])
    } else {
        lookup(s.drop_first(), id)
    }
}

pub proof fn lemma_lookup_found(s: Seq<CameraControl>, id: ControlId, i: int)
    requires
        0 <= i < s.len(),
        s[i].id == id,
        forall|j: int| 0 <= j < i ==> s[j].id != id,
    ensures
        lookup(s, id) == Some(s[i]),
    decreases i,
{
    if i > 0 {
        lemma_lookup_found(s.drop_first(), id, i - 1);
    }
}

pub proof fn lemma_lookup_absent(s: Seq<CameraControl>, id: ControlId)
    requires
        forall|j: int| 0 <= j < s.len() ==> s[j].id != id,
    ensures
        lookup(s, id) is None,
    decreases s.len(),
{
    if s.len() > 0 {
        lemma_lookup_absent(s.drop_first(), id);
    }
}

/// When a lookup finds nothing, no element carries the identifier.
pub proof fn lemma_lookup_none_means_absent(s: Seq<CameraControl>, id: ControlId)
    requires
        lookup(s, id) is None,
    ensures
        forall|j: int| 0 <= j < s.len() ==> s[j].id != id,
    decreases s.len(),
{
    if s.len() > 0 {
        lemma_lookup_none_means_absent(s.drop_first(), id);
        assert(forall|j: int| 1 <= j < s.len() ==> s[j] == s.drop_first()[j - 1]);
    }
}

/// Extending a sequence on the right changes a lookup only where it found
/// nothing before.
pub proof fn lemma_lookup_push(s: Seq<CameraControl>, c: CameraControl, id: ControlId)
    ensures
        lookup(s.push(c), id) == (if lookup(s, id) is Some {
            lookup(s, id)
        } else if c.id == id {
            Some(c)
        } else {
            None::<CameraControl>
        }),
    decreases s.len(),
{
    if s.len() == 0 {
        assert(s.push(c) =~= seq![c]);
        assert(s.push(c).drop_first() =~= Seq::<CameraControl>::empty());
    } else {
        assert(s.push(c)[0] == s[0]);
        lemma_lookup_push(s.drop_first(), c, id);
        assert(s.push(c).drop_first() =~= s.drop_first().push(c));
    }
}

/// Replacing the element at `i` by one with the same identifier rewrites
/// exactly that identifier's lookup.
pub proof fn lemma_lookup_update(s: Seq<CameraControl>, i: int, c: CameraControl, id: ControlId)
    requires
        unique_ids(s),
        0 <= i < s.len(),
        c.id == s[i].id,
    ensures
        lookup(s.update(i, c), id) == (if id == c.id {
            Some(c)
        } else {
            lookup(s, id)
        }),
    decreases i,
{
    if i == 0 {
        if id == c.id {
        } else {
            assert(s.update(0, c).drop_first() =~= s.drop_first());
        }
    } else {
        assert(s.update(i, c).drop_first() =~= s.drop_first().update(i - 1, c));
        lemma_lookup_update(s.drop_first(), i - 1, c, id);
    }
}

/// What applying a setter to the named control must come to:
/// `UnsupportedControl` exactly when the identifier was never enumerated,
/// `InvalidValue` exactly when the control's declared description rejects
/// the setter, success otherwise.
pub open spec fn set_outcome(
    s: Seq<CameraControl>,
    id: ControlId,
    v: ControlValueSetter,
) -> Result<(), CameraError> {
    match lookup(s, id) {
        None => Err(CameraError::UnsupportedControl),
        Some(c) => if accepts(c.description, v) {
            Ok(())
        } else {
            Err(CameraError::InvalidValue)
        },
    }
}

/// The enumerated control surface of one camera session: each control at
/// most once, every control well formed.
pub struct ControlStore {
    items: Vec<CameraControl>,
}

impl ControlStore {
    /// The controls, in enumeration order.
    pub closed spec fn controls(self) -> Seq<CameraControl> {
        self.items@
    }

    pub open spec fn wf(self) -> bool {
        &&& unique_ids(self.controls())
        &&& forall|i: int| 0 <= i < self.controls().len() ==> self.controls()[i].wf()
    }

    pub fn new() -> (r: ControlStore)
        ensures
            r.wf(),
            r.controls() == Seq::<CameraControl>::empty(),
    {
        ControlStore { items: Vec::new() }
    }

    /// Adds a control; refuses one whose identifier is already present.
    pub fn add(&mut self, c: CameraControl) -> (r: bool)
        requires
            old(self).wf(),
            c.wf(),
        ensures
            final(self).wf(),
            r == (lookup(old(self).controls(), c.id) is None),
            r ==> final(self).controls() == old(self).controls().push(c),
            !r ==> final(self).controls() == old(self).controls(),
    {
        let found = self.find_index(c.id);
        match found {
            Some(_) => false,
            None => {
                proof {
                    lemma_lookup_none_means_absent(self.controls(), c.id);
                }
                self.items.push(c);
                proof {
                    assert(self.controls() =~= old(self).controls().push(c));
                    assert(unique_ids(self.controls()));
                    assert(forall|i: int| 0 <= i < self.controls().len()
                        ==> self.controls()[i].wf());
                }
                true
            },
        }
    }

    /// The position of the control with this identifier, if any.
    fn find_index(&self, id: ControlId) -> (r: Option<usize>)
        requires
            self.wf(),
        ensures
            r matches Some(i) ==> i < self.controls().len() && self.controls()[i as int].id == id
                && lookup(self.controls(), id) == Some(self.controls()[i as int]),
            r is None ==> lookup(self.controls(), id) is None,
    {
        let n = self.items.len();
        let mut i: usize = 0;
        while i < n
            invariant
                self.wf(),
                n == self.controls().len(),
                i <= n,
                forall|j: int| 0 <= j < i ==> self.controls()[j].id != id,
            decreases n - i,
        {
            if self.items[i].id == id {
                proof {
                    lemma_lookup_found(self.controls(), id, i as int);
                }
                return Some(i);
            }
            i = i + 1;
        }
        proof {
            lemma_lookup_absent(self.controls(), id);
        }
        None
    }

    /// The whole enumerated control surface, in enumeration order.
    pub fn entries(&self) -> (r: &Vec<CameraControl>)
        ensures
            r@ == self.controls(),
    {
        &self.items
    }

    /// The control carrying this identifier, if it was enumerated.
    pub fn get(&self, id: ControlId) -> (r: Option<CameraControl>)
        requires
            self.wf(),
        ensures
            r == lookup(self.controls(), id),
    {
        let found = self.find_index(id);
        match found {
            Some(i) => Some(self.items[i]),
            None => None,
        }
    }

    /// Applies a setter to the named control. Fails with
    /// `UnsupportedControl` exactly when the identifier was never
    /// enumerated, with `InvalidValue` exactly when the control's declared
    /// description rejects the setter (wrong kind, or out of the declared
    /// `[min, max]`); an error leaves every value unchanged. On success
    /// exactly this control now carries the new value.
    pub fn set(&mut self, id: ControlId, v: ControlValueSetter) -> (r: Result<(), CameraError>)
        requires
            old(self).wf(),
        ensures
            final(self).wf(),
            r == set_outcome(old(self).controls(), id, v),
            r is Err ==> final(self).controls() == old(self).controls(),
            r is Ok ==> {
                &&& final(self).controls().len() == old(self).controls().len()
                &&& lookup(final(self).controls(), id) matches Some(c2)
                    && lookup(old(self).controls(), id) matches Some(c) && c2 == (CameraControl {
                    id: c.id,
                    description: c.description,
                    value: v,
                })
                &&& forall|other: ControlId| other != id ==> lookup(
                    final(self).controls(),
                    other,
                ) == lookup(old(self).controls(), other)
            },
    {
        let found = self.find_index(id);
        match found {
            None => Err(CameraError::UnsupportedControl),
            Some(i) => {
                let c = self.items[i];
                if !value_accepted(&c.description, &v) {
                    Err(CameraError::InvalidValue)
                } else {
                    let updated = CameraControl { id: c.id, description: c.description, value: v };
                    self.items.set(i, updated);
                    proof {
                        let s0 = old(self).controls();
                        let s1 = self.controls();
                        assert(s1 =~= s0.update(i as int, updated));
                        assert(forall|k: int| 0 <= k < s1.len() ==> s1[k].id == s0[k].id);
                        assert(unique_ids(s1));
                        assert(forall|k: int| 0 <= k < s1.len() ==> s1[k].wf());
                        assert forall|other: ControlId| other != id implies lookup(s1, other)
                            == lookup(s0, other) by {
                            lemma_lookup_update(s0, i as int, updated, other);
                        }
                        lemma_lookup_update(s0, i as int, updated, id);
                    }
                    Ok(())
                }
            },
        }
    }
}

/// Out-of-range rejection: writing an integer or float control with a
/// value outside its declared `[min, max]` comes to `InvalidValue`; since
/// `ControlStore::set` changes nothing on an error, the previously applied
/// value stands unchanged.
pub proof fn lemma_out_of_range_rejection(
    s: Seq<CameraControl>,
    id: ControlId,
    x: i64,
    bits: u64,
)
    requires
        lookup(s, id) is Some,
    ensures
        (lookup(s, id) matches Some(c) && c.description matches ControlDescription::IntegerRange {
            min,
            max,
            ..
        } && !(min <= x <= max)) ==> set_outcome(s, id, ControlValueSetter::Integer(x)) == Err::<
            (),
            CameraError,
        >(CameraError::InvalidValue),
        (lookup(s, id) matches Some(c) && c.description matches ControlDescription::FloatRange {
            min,
            max,
            ..
        } && !(float_order_key(min) <= float_order_key(bits) <= float_order_key(max)))
            ==> set_outcome(s, id, ControlValueSetter::Float(bits)) == Err::<(), CameraError>(
            CameraError::InvalidValue,
        ),
{
}

} // verus!
