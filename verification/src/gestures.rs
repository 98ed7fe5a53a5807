//! The gesture classifier: one accumulator per gesture kind, turned into at
//! most one discrete gesture per physical gesture (or, for pinch, possibly
//! several through early-fire thresholds).

use vstd::prelude::*;
use vstd::math::abs;
use vstd::string::StringExecFns;

use crate::events::GestureEvent;

verus! {

/// Bound kept on every accumulated delta and angle (milli-units).
pub const ACCUM_LIMIT: i64 = 1_000_000_000_000;

/// Accumulated rotation angle, in milli-degrees, beyond which a pinch
/// gesture counts as a rotation.
pub const ROTATION_ANGLE_LIMIT: i64 = 50_000;

/// Fixed-point tangent of 75 degrees: a swipe steeper than this is vertical.
/// `|dy| / |dx| > TAN75_NUM / TAN75_DEN` stands for an angle above 75
/// degrees away from the horizontal axis.
pub const TAN75_NUM: i64 = 3_732_051;

/// Denominator of the fixed-point tangent of 75 degrees.
pub const TAN75_DEN: i64 = 1_000_000;

/// Fixed-point tangent of 15 degrees: a swipe shallower than this (but not
/// exactly flat) is horizontal. `|dy| / |dx| < TAN15_NUM / TAN15_DEN`
/// stands for an angle below 15 degrees away from the horizontal axis.
pub const TAN15_NUM: i64 = 267_949;

/// Denominator of the fixed-point tangent of 15 degrees.
pub const TAN15_DEN: i64 = 1_000_000;

/// Direction of a resolved swipe.
#[derive(Clone, Copy, Debug, PartialEq, Eq, Structural)]
pub enum SwipeDirection {
    Up,
    Down,
    Left,
    Right,
}

/// Direction of a resolved rotation.
#[derive(Clone, Copy, Debug, PartialEq, Eq, Structural)]
pub enum RotationDirection {
    Left,
    Right,
}

/// Direction of a resolved pinch: `In` when the fingers moved together
/// (scale shrank), `Out` when they moved apart.
#[derive(Clone, Copy, Debug, PartialEq, Eq, Structural)]
pub enum PinchDirection {
    In,
    Out,
}

/// One discrete, fully classified gesture. A swipe carries its finger
/// count; a rotation carries the accumulated angle in milli-degrees; a
/// pinch carries the accumulated scale delta in milli-scale, positive for
/// a pinch in.
#[derive(Clone, Copy, Debug, PartialEq, Eq, Structural)]
pub enum GestureType {
    Swipe(SwipeDirection, i32),
    Rotation(RotationDirection, i64),
    Pinch(PinchDirection, i64),
}

/// Lower-case name of a swipe direction, as it appears in setting keys.
pub open spec fn spec_swipe_direction_name(d: SwipeDirection) -> Seq<char> {
    match d {
        SwipeDirection::Up => "up"@,
        SwipeDirection::Down => "down"@,
        SwipeDirection::Left => "left"@,
        SwipeDirection::Right => "right"@,
    }
}

/// Lower-case name of a rotation direction, as it appears in setting keys.
pub open spec fn spec_rotation_direction_name(d: RotationDirection) -> Seq<char> {
    match d {
        RotationDirection::Left => "left"@,
        RotationDirection::Right => "right"@,
    }
}

/// Lower-case name of a pinch direction, as it appears in setting keys.
pub open spec fn spec_pinch_direction_name(d: PinchDirection) -> Seq<char> {
    match d {
        PinchDirection::In => "in"@,
        PinchDirection::Out => "out"@,
    }
}

/// The decimal digit character for a value below ten.
pub open spec fn spec_digit_char(d: int) -> char {
    if d == 0 {
        '0'
    } else if d == 1 {
        '1'
    } else if d == 2 {
        '2'
    } else if d == 3 {
        '3'
    } else if d == 4 {
        '4'
    } else if d == 5 {
        '5'
    } else if d == 6 {
        '6'
    } else if d == 7 {
        '7'
    } else if d == 8 {
        '8'
    } else {
        '9'
    }
}

/// The decimal digits of a non-negative number, most significant first.
pub open spec fn spec_dec_digits(n: nat) -> Seq<char>
    decreases n,
{
    if n < 10 {
        seq![spec_digit_char(n as int)]
    } else {
        spec_dec_digits(n / 10) + seq![spec_digit_char((n % 10) as int)]
    }
}

/// The decimal rendering of a number, with a leading minus sign when it
/// is negative.
pub open spec fn spec_dec_int(n: int) -> Seq<char> {
    if n < 0 {
        seq!['-'] + spec_dec_digits((-n) as nat)
    } else {
        spec_dec_digits(n as nat)
    }
}

/// The setting key a gesture is looked up under: category, direction, and
/// for swipes the finger count, separated by dots.
pub open spec fn spec_config_key(t: GestureType) -> Seq<char> {
    match t {
        GestureType::Swipe(d, fingers) => "swipe."@ + spec_swipe_direction_name(d) + "."@
            + spec_dec_int(fingers as int),
        GestureType::Rotation(d, _) => "rotation."@ + spec_rotation_direction_name(d),
        GestureType::Pinch(d, _) => "pinch."@ + spec_pinch_direction_name(d),
    }
}

/// Appends one decimal digit character.
fn push_digit(s: &mut String, d: u8)
    requires
        d < 10,
    ensures
        final(s)@ == old(s)@ + seq![spec_digit_char(d as int)],
{
    match d {
        0 => {
            proof {
                reveal_strlit("0");
                assert("0"@ =~= seq!['0']);
            }
            s.append("0");
        },
        1 => {
            proof {
                reveal_strlit("1");
                assert("1"@ =~= seq!['1']);
            }
            s.append("1");
        },
        2 => {
            proof {
                reveal_strlit("2");
                assert("2"@ =~= seq!['2']);
            }
            s.append("2");
        },
        3 => {
            proof {
                reveal_strlit("3");
                assert("3"@ =~= seq!['3']);
            }
            s.append("3");
        },
        4 => {
            proof {
                reveal_strlit("4");
                assert("4"@ =~= seq!['4']);
            }
            s.append("4");
        },
        5 => {
            proof {
                reveal_strlit("5");
                assert("5"@ =~= seq!['5']);
            }
            s.append("5");
        },
        6 => {
            proof {
                reveal_strlit("6");
                assert("6"@ =~= seq!['6']);
            }
            s.append("6");
        },
        7 => {
            proof {
                reveal_strlit("7");
                assert("7"@ =~= seq!['7']);
            }
            s.append("7");
        },
        8 => {
            proof {
                reveal_strlit("8");
                assert("8"@ =~= seq!['8']);
            }
            s.append("8");
        },
        _ => {
            proof {
                reveal_strlit("9");
                assert("9"@ =~= seq!['9']);
            }
            s.append("9");
        },
    }
}

/// Appends the decimal digits of a non-negative number.
fn push_dec_digits(s: &mut String, n: u32)
    ensures
        final(s)@ == old(s)@ + spec_dec_digits(n as nat),
    decreases n,
{
    if n >= 10 {
        push_dec_digits(s, n / 10);
    }
    push_digit(s, (n % 10) as u8);
    proof {
        if n >= 10 {
            assert(s@ =~= old(s)@ + (spec_dec_digits((n / 10) as nat) + seq![
                spec_digit_char((n % 10) as int),
            ]));
        } else {
            assert(spec_dec_digits(n as nat) == seq![spec_digit_char(n as int)]);
        }
    }
}

/// Appends the decimal rendering of a number, minus sign included.
fn push_dec_i32(s: &mut String, n: i32)
    ensures
        final(s)@ == old(s)@ + spec_dec_int(n as int),
{
    if n < 0 {
        proof {
            reveal_strlit("-");
            assert("-"@ =~= seq!['-']);
        }
        s.append("-");
        let m: u32 = (-(n as i64)) as u32;
        push_dec_digits(s, m);
        proof {
            assert(s@ =~= old(s)@ + (seq!['-'] + spec_dec_digits((-(n as int)) as nat)));
        }
    } else {
        push_dec_digits(s, n as u32);
    }
}

/// The lower-case name of a swipe direction.
fn swipe_direction_name(d: &SwipeDirection) -> (r: &'static str)
    ensures
        r@ == spec_swipe_direction_name(*d),
{
    match *d {
        SwipeDirection::Up => "up",
        SwipeDirection::Down => "down",
        SwipeDirection::Left => "left",
        SwipeDirection::Right => "right",
    }
}

/// The lower-case name of a rotation direction.
fn rotation_direction_name(d: &RotationDirection) -> (r: &'static str)
    ensures
        r@ == spec_rotation_direction_name(*d),
{
    match *d {
        RotationDirection::Left => "left",
        RotationDirection::Right => "right",
    }
}

/// The lower-case name of a pinch direction.
fn pinch_direction_name(d: &PinchDirection) -> (r: &'static str)
    ensures
        r@ == spec_pinch_direction_name(*d),
{
    match *d {
        PinchDirection::In => "in",
        PinchDirection::Out => "out",
    }
}

impl GestureType {
    /// The setting key this gesture is looked up under: category,
    /// direction, and for swipes the finger count, separated by dots.
    pub fn to_config(&self) -> (r: String)
        ensures
            r@ == spec_config_key(*self),
    {
        let mut s = String::new();
        match *self {
            GestureType::Swipe(d, fingers) => {
                s.append("swipe.");
                s.append(swipe_direction_name(&d));
                s.append(".");
                push_dec_i32(&mut s, fingers);
                proof {
                    assert(s@ =~= "swipe."@ + spec_swipe_direction_name(d) + "."@ + spec_dec_int(
                        fingers as int,
                    ));
                }
            },
            GestureType::Rotation(d, _) => {
                s.append("rotation.");
                s.append(rotation_direction_name(&d));
                proof {
                    assert(s@ =~= "rotation."@ + spec_rotation_direction_name(d));
                }
            },
            GestureType::Pinch(d, _) => {
                s.append("pinch.");
                s.append(pinch_direction_name(&d));
                proof {
                    assert(s@ =~= "pinch."@ + spec_pinch_direction_name(d));
                }
            },
        }
        s
    }
}

/// The angle of the accumulated motion `(dx, dy)` lies strictly between 75
/// and 105 degrees away from the horizontal axis: the swipe is vertical.
/// A motion with `dx == 0` and `dy != 0` stands at exactly 90 degrees and
/// is vertical; a motion with `dx == dy == 0` has no angle and is not.
pub open spec fn spec_swipe_is_vertical(dx: int, dy: int) -> bool {
    abs(dy) * TAN75_DEN > abs(dx) * TAN75_NUM
}

/// The angle of the accumulated motion `(dx, dy)` lies strictly between 0
/// and 15 degrees away from the horizontal axis: the swipe is horizontal.
/// A perfectly flat motion (`dy == 0`) has angle exactly 0 and is excluded.
pub open spec fn spec_swipe_is_horizontal(dx: int, dy: int) -> bool {
    dy != 0 && abs(dy) * TAN15_DEN < abs(dx) * TAN15_NUM
}

/// Direction of a swipe from its accumulated motion and finger count, or
/// `None` when the motion resolves to no direction. Two-finger swipes are
/// horizontal by the sign of `dx` alone, since on some hardware they are
/// purely horizontal.
pub open spec fn spec_swipe_direction(dx: int, dy: int, fingers: int) -> Option<SwipeDirection> {
    if fingers == 2 {
        if dx > 0 {
            Some(SwipeDirection::Right)
        } else {
            Some(SwipeDirection::Left)
        }
    } else if spec_swipe_is_vertical(dx, dy) {
        if dy > 0 {
            Some(SwipeDirection::Down)
        } else {
            Some(SwipeDirection::Up)
        }
    } else if spec_swipe_is_horizontal(dx, dy) {
        if dx > 0 {
            Some(SwipeDirection::Right)
        } else {
            Some(SwipeDirection::Left)
        }
    } else {
        None
    }
}

/// Accumulator for one live swipe gesture: position deltas in milli-units,
/// the finger count from the begin event, and the cancellation flag.
#[derive(Clone, Copy, Debug, PartialEq, Eq, Structural)]
pub struct SwipeGesture {
    pub dx: i64,
    pub dy: i64,
    pub fingers: i32,
    pub cancelled: bool,
}

impl SwipeGesture {
    /// The accumulated deltas lie within `ACCUM_LIMIT`.
    pub open spec fn wf(self) -> bool {
        -ACCUM_LIMIT <= self.dx <= ACCUM_LIMIT && -ACCUM_LIMIT <= self.dy <= ACCUM_LIMIT
    }

    /// A fresh accumulator for a swipe that has just begun.
    pub fn new(fingers: i32) -> (g: SwipeGesture)
        ensures
            g == (SwipeGesture { dx: 0, dy: 0, fingers, cancelled: false }),
    {
        SwipeGesture { dx: 0, dy: 0, fingers, cancelled: false }
    }

    /// Accumulates one update's deltas, each sum held to `ACCUM_LIMIT`.
    pub fn add(&mut self, dx: i64, dy: i64)
        requires
            old(self).wf(),
            -crate::events::EVENT_DELTA_LIMIT <= dx <= crate::events::EVENT_DELTA_LIMIT,
            -crate::events::EVENT_DELTA_LIMIT <= dy <= crate::events::EVENT_DELTA_LIMIT,
        ensures
            *final(self) == (SwipeGesture {
                dx: spec_clamp_accum(old(self).dx + dx),
                dy: spec_clamp_accum(old(self).dy + dy),
                ..*old(self)
            }),
            final(self).wf(),
    {
        self.dx = clamp_accum(self.dx, dx);
        self.dy = clamp_accum(self.dy, dy);
    }

    /// Marks the gesture as cancelled, so that it resolves to no emission.
    pub fn cancel(&mut self)
        ensures
            *final(self) == (SwipeGesture { cancelled: true, ..*old(self) }),
    {
        self.cancelled = true;
    }

    /// Direction of the accumulated motion, or `None` when it resolves to
    /// no direction.
    pub fn direction(&self) -> (r: Option<SwipeDirection>)
        requires
            self.wf(),
        ensures
            r == spec_swipe_direction(self.dx as int, self.dy as int, self.fingers as int),
    {
        if self.fingers == 2 {
            return if self.dx > 0 {
                Some(SwipeDirection::Right)
            } else {
                Some(SwipeDirection::Left)
            };
        }
        let adx = abs_i64(self.dx);
        let ady = abs_i64(self.dy);
        if ady * TAN75_DEN > adx * TAN75_NUM {
            if self.dy > 0 {
                Some(SwipeDirection::Down)
            } else {
                Some(SwipeDirection::Up)
            }
        } else if self.dy != 0 && ady * TAN15_DEN < adx * TAN15_NUM {
            if self.dx > 0 {
                Some(SwipeDirection::Right)
            } else {
                Some(SwipeDirection::Left)
            }
        } else {
            None
        }
    }
}

/// The accumulated angle is wide enough that the gesture counts as a
/// rotation, whichever way the scale moved.
pub open spec fn spec_is_rotation(angle: int) -> bool {
    angle > ROTATION_ANGLE_LIMIT || angle < -ROTATION_ANGLE_LIMIT
}

/// Direction of a rotation from its accumulated angle, or `None` when the
/// angle stays within `ROTATION_ANGLE_LIMIT`.
pub open spec fn spec_rotation_direction(angle: int) -> Option<RotationDirection> {
    if angle > ROTATION_ANGLE_LIMIT {
        Some(RotationDirection::Right)
    } else if angle < -ROTATION_ANGLE_LIMIT {
        Some(RotationDirection::Left)
    } else {
        None
    }
}

/// Direction of a pinch from its accumulated scale delta (initial scale
/// minus current scale): positive means the fingers moved together.
pub open spec fn spec_pinch_direction(scale: int) -> Option<PinchDirection> {
    if scale > 0 {
        Some(PinchDirection::In)
    } else if scale < 0 {
        Some(PinchDirection::Out)
    } else {
        None
    }
}

/// Accumulator for one live pinch/rotation gesture. `initial_scale` is the
/// absolute scale at the begin event (the baseline); `scale` is the
/// accumulated delta, baseline minus current scale; angles are in
/// milli-degrees.
#[derive(Clone, Copy, Debug, PartialEq, Eq, Structural)]
pub struct PinchGesture {
    pub initial_scale: i64,
    pub scale: i64,
    pub dx: i64,
    pub dy: i64,
    pub angle: i64,
    pub cancelled: bool,
}

impl PinchGesture {
    /// All accumulated values lie within their bounds.
    pub open spec fn wf(self) -> bool {
        &&& -crate::events::EVENT_DELTA_LIMIT <= self.initial_scale
            <= crate::events::EVENT_DELTA_LIMIT
        &&& -2 * crate::events::EVENT_DELTA_LIMIT <= self.scale
            <= 2 * crate::events::EVENT_DELTA_LIMIT
        &&& -ACCUM_LIMIT <= self.dx <= ACCUM_LIMIT
        &&& -ACCUM_LIMIT <= self.dy <= ACCUM_LIMIT
        &&& -ACCUM_LIMIT <= self.angle <= ACCUM_LIMIT
    }

    /// A fresh accumulator whose baseline is the absolute scale at the
    /// begin event.
    pub fn new(scale: i64) -> (g: PinchGesture)
        ensures
            g == (PinchGesture {
                initial_scale: scale,
                scale: 0,
                dx: 0,
                dy: 0,
                angle: 0,
                cancelled: false,
            }),
    {
        PinchGesture { initial_scale: scale, scale: 0, dx: 0, dy: 0, angle: 0, cancelled: false }
    }

    /// Accumulates one update: deltas and angle are added (held to
    /// `ACCUM_LIMIT`); the scale delta is recomputed as the baseline minus
    /// the update's absolute scale.
    pub fn add(&mut self, dx: i64, dy: i64, angle: i64, scale: i64)
        requires
            old(self).wf(),
            -crate::events::EVENT_DELTA_LIMIT <= dx <= crate::events::EVENT_DELTA_LIMIT,
            -crate::events::EVENT_DELTA_LIMIT <= dy <= crate::events::EVENT_DELTA_LIMIT,
            -crate::events::EVENT_DELTA_LIMIT <= angle <= crate::events::EVENT_DELTA_LIMIT,
            -crate::events::EVENT_DELTA_LIMIT <= scale <= crate::events::EVENT_DELTA_LIMIT,
        ensures
            *final(self) == spec_pinch_add(*old(self), dx as int, dy as int, angle as int, scale as int),
            final(self).wf(),
    {
        self.dx = clamp_accum(self.dx, dx);
        self.dy = clamp_accum(self.dy, dy);
        self.angle = clamp_accum(self.angle, angle);
        self.scale = self.initial_scale - scale;
    }

    /// Marks the gesture as cancelled, so that it resolves to no emission.
    pub fn cancel(&mut self)
        ensures
            *final(self) == (PinchGesture { cancelled: true, ..*old(self) }),
    {
        self.cancelled = true;
    }

    /// The accumulated angle is wide enough for a rotation.
    pub fn is_rotation(&self) -> (r: bool)
        ensures
            r == spec_is_rotation(self.angle as int),
    {
        self.angle > ROTATION_ANGLE_LIMIT || self.angle < -ROTATION_ANGLE_LIMIT
    }

    /// Direction of the rotation, or `None` when the gesture is not a
    /// rotation.
    pub fn rotation_direction(&self) -> (r: Option<RotationDirection>)
        ensures
            r == spec_rotation_direction(self.angle as int),
    {
        if self.angle > ROTATION_ANGLE_LIMIT {
            Some(RotationDirection::Right)
        } else if self.angle < -ROTATION_ANGLE_LIMIT {
            Some(RotationDirection::Left)
        } else {
            None
        }
    }

    /// Direction of the pinch by the sign of the scale delta, or `None`
    /// when the gesture is a rotation or the scale has not moved.
    pub fn direction(&self) -> (r: Option<PinchDirection>)
        ensures
            r == (if spec_is_rotation(self.angle as int) {
                Option::<PinchDirection>::None
            } else {
                spec_pinch_direction(self.scale as int)
            }),
    {
        if self.is_rotation() {
            return None;
        }
        if self.scale > 0 {
            Some(PinchDirection::In)
        } else if self.scale < 0 {
            Some(PinchDirection::Out)
        } else {
            None
        }
    }
}

/// The accumulator after one pinch update: deltas and angle added under
/// the accumulation bound, scale delta recomputed against the baseline.
pub open spec fn spec_pinch_add(g: PinchGesture, dx: int, dy: int, angle: int, scale: int) -> PinchGesture {
    PinchGesture {
        dx: spec_clamp_accum(g.dx + dx),
        dy: spec_clamp_accum(g.dy + dy),
        angle: spec_clamp_accum(g.angle + angle),
        scale: (g.initial_scale - scale) as i64,
        ..g
    }
}

/// What a finished, uncancelled swipe emits: its direction and finger
/// count, or nothing when the motion resolves to no direction or the
/// gesture was cancelled.
pub open spec fn spec_swipe_emission(g: SwipeGesture) -> Option<GestureType> {
    if g.cancelled {
        None
    } else {
        match spec_swipe_direction(g.dx as int, g.dy as int, g.fingers as int) {
            Some(d) => Some(GestureType::Swipe(d, g.fingers)),
            None => None,
        }
    }
}

/// What a finished, uncancelled pinch/rotation emits. Rotation takes
/// precedence: whenever the accumulated angle is wide enough, the emission
/// is a rotation whatever the scale did; otherwise a moved scale emits a
/// pinch; otherwise nothing.
pub open spec fn spec_pinch_emission(g: PinchGesture) -> Option<GestureType> {
    if g.cancelled {
        None
    } else {
        match spec_rotation_direction(g.angle as int) {
            Some(d) => Some(GestureType::Rotation(d, g.angle)),
            None => match spec_pinch_direction(g.scale as int) {
                Some(d) => Some(GestureType::Pinch(d, g.scale)),
                None => None,
            },
        }
    }
}

/// What an accumulated value becomes once held to `ACCUM_LIMIT`.
pub open spec fn spec_clamp_accum(v: int) -> i64 {
    if v > ACCUM_LIMIT {
        ACCUM_LIMIT
    } else if v < -ACCUM_LIMIT {
        (-ACCUM_LIMIT) as i64
    } else {
        v as i64
    }
}

/// Adds a bounded event delta to a bounded accumulator, holding the sum to
/// `ACCUM_LIMIT`.
fn clamp_accum(acc: i64, delta: i64) -> (r: i64)
    requires
        -ACCUM_LIMIT <= acc <= ACCUM_LIMIT,
        -2 * crate::events::EVENT_DELTA_LIMIT <= delta <= 2 * crate::events::EVENT_DELTA_LIMIT,
    ensures
        r == spec_clamp_accum(acc + delta),
        -ACCUM_LIMIT <= r <= ACCUM_LIMIT,
{
    let sum = acc + delta;
    if sum > ACCUM_LIMIT {
        ACCUM_LIMIT
    } else if sum < -ACCUM_LIMIT {
        -ACCUM_LIMIT
    } else {
        sum
    }
}

/// Absolute value of a bounded accumulator.
fn abs_i64(v: i64) -> (r: i64)
    requires
        -ACCUM_LIMIT <= v <= ACCUM_LIMIT,
    ensures
        r == abs(v as int),
{
    if v < 0 {
        -v
    } else {
        v
    }
}

impl SwipeGesture {
    /// The discrete gesture this accumulator resolves to, if any.
    pub fn gesture_type(&self) -> (r: Option<GestureType>)
        requires
            self.wf(),
        ensures
            r == spec_swipe_emission(*self),
    {
        if self.cancelled {
            return None;
        }
        match self.direction() {
            Some(d) => Some(GestureType::Swipe(d, self.fingers)),
            None => None,
        }
    }
}

impl PinchGesture {
    /// The discrete gesture this accumulator resolves to, if any; rotation
    /// takes precedence over pinch.
    pub fn gesture_type(&self) -> (r: Option<GestureType>)
        requires
            self.wf(),
        ensures
            r == spec_pinch_emission(*self),
    {
        if self.cancelled {
            return None;
        }
        match self.rotation_direction() {
            Some(d) => Some(GestureType::Rotation(d, self.angle)),
            None => match self.direction() {
                Some(d) => Some(GestureType::Pinch(d, self.scale)),
                None => None,
            },
        }
    }
}

/// Holder of the at-most-one live swipe accumulator.
#[derive(Clone, Copy, Debug, PartialEq, Eq, Structural)]
pub struct SwipeBuilder {
    pub swipe: Option<SwipeGesture>,
}

impl SwipeBuilder {
    /// The live accumulator, if any, is well formed.
    pub open spec fn wf(self) -> bool {
        match self.swipe {
            Some(g) => g.wf(),
            None => true,
        }
    }

    /// A builder with no live gesture.
    pub fn empty() -> (b: SwipeBuilder)
        ensures
            b == (SwipeBuilder { swipe: Option::<SwipeGesture>::None }),
    {
        SwipeBuilder { swipe: None }
    }

    /// Starts a fresh swipe, replacing any live one.
    pub fn new(&mut self, fingers: i32)
        ensures
            *final(self) == (SwipeBuilder {
                swipe: Some(SwipeGesture { dx: 0, dy: 0, fingers, cancelled: false }),
            }),
            final(self).wf(),
    {
        self.swipe = Some(SwipeGesture::new(fingers));
    }

    /// Accumulates an update into the live swipe; with no live swipe this
    /// is a no-op.
    pub fn update(&mut self, dx: i64, dy: i64)
        requires
            old(self).wf(),
            -crate::events::EVENT_DELTA_LIMIT <= dx <= crate::events::EVENT_DELTA_LIMIT,
            -crate::events::EVENT_DELTA_LIMIT <= dy <= crate::events::EVENT_DELTA_LIMIT,
        ensures
            *final(self) == spec_swipe_builder_update(*old(self), dx as int, dy as int),
            final(self).wf(),
    {
        match self.swipe {
            Some(ref mut g) => g.add(dx, dy),
            None => (),
        }
    }

    /// Consumes the live swipe, marking it cancelled when the end event
    /// was; with no live swipe returns `Err`.
    pub fn build(&mut self, cancelled: bool) -> (r: Result<SwipeGesture, ()>)
        requires
            old(self).wf(),
        ensures
            final(self).swipe is None,
            r == (match old(self).swipe {
                Some(g) => Result::<SwipeGesture, ()>::Ok(
                    SwipeGesture { cancelled: g.cancelled || cancelled, ..g },
                ),
                None => Result::<SwipeGesture, ()>::Err(()),
            }),
            r is Ok ==> r.unwrap().wf(),
    {
        let mut swipe: Option<SwipeGesture> = None;
        core::mem::swap(&mut swipe, &mut self.swipe);
        match swipe {
            Some(mut g) => {
                if cancelled {
                    g.cancel();
                }
                Ok(g)
            },
            None => Err(()),
        }
    }
}

/// The swipe builder after an update: the live accumulator takes the
/// deltas; an empty builder stays empty.
pub open spec fn spec_swipe_builder_update(b: SwipeBuilder, dx: int, dy: int) -> SwipeBuilder {
    match b.swipe {
        Some(g) => SwipeBuilder {
            swipe: Some(SwipeGesture {
                dx: spec_clamp_accum(g.dx + dx),
                dy: spec_clamp_accum(g.dy + dy),
                ..g
            }),
        },
        None => b,
    }
}

/// Holder of the at-most-one live pinch accumulator, together with the
/// early-fire thresholds the gesture began with (milli-scale; zero means
/// the threshold is off).
#[derive(Clone, Copy, Debug, PartialEq, Eq, Structural)]
pub struct PinchBuilder {
    pub pinch: Option<PinchGesture>,
    pub pinch_in_scale_trigger: i64,
    pub pinch_out_scale_trigger: i64,
}

/// The accumulated scale delta has crossed a configured early-fire
/// threshold: for a pinch in, delta at or above the threshold; for a pinch
/// out, delta at or below the negated threshold. A gesture wide enough to
/// be a rotation never fires early.
pub open spec fn spec_early_fire(g: PinchGesture, in_trigger: int, out_trigger: int) -> bool {
    &&& !spec_is_rotation(g.angle as int)
    &&& ((g.scale > 0 && in_trigger != 0 && g.scale >= in_trigger) || (g.scale < 0
        && out_trigger != 0 && g.scale <= -out_trigger))
}

impl PinchBuilder {
    /// The live accumulator, if any, is well formed, and the thresholds
    /// are bounded like accumulated values.
    pub open spec fn wf(self) -> bool {
        &&& match self.pinch {
            Some(g) => g.wf(),
            None => true,
        }
        &&& -ACCUM_LIMIT <= self.pinch_in_scale_trigger <= ACCUM_LIMIT
        &&& -ACCUM_LIMIT <= self.pinch_out_scale_trigger <= ACCUM_LIMIT
    }

    /// A builder with no live gesture and both thresholds off.
    pub fn empty() -> (b: PinchBuilder)
        ensures
            b == (PinchBuilder {
                pinch: Option::<PinchGesture>::None,
                pinch_in_scale_trigger: 0,
                pinch_out_scale_trigger: 0,
            }),
    {
        PinchBuilder { pinch: None, pinch_in_scale_trigger: 0, pinch_out_scale_trigger: 0 }
    }

    /// Starts a fresh pinch from the given absolute baseline scale and
    /// thresholds, replacing any live one.
    pub fn new(&mut self, scale: i64, pinch_in_scale_trigger: i64, pinch_out_scale_trigger: i64)
        requires
            -ACCUM_LIMIT <= pinch_in_scale_trigger <= ACCUM_LIMIT,
            -ACCUM_LIMIT <= pinch_out_scale_trigger <= ACCUM_LIMIT,
        ensures
            *final(self) == (PinchBuilder {
                pinch: Some(PinchGesture {
                    initial_scale: scale,
                    scale: 0,
                    dx: 0,
                    dy: 0,
                    angle: 0,
                    cancelled: false,
                }),
                pinch_in_scale_trigger,
                pinch_out_scale_trigger,
            }),
    {
        self.pinch = Some(PinchGesture::new(scale));
        self.pinch_in_scale_trigger = pinch_in_scale_trigger;
        self.pinch_out_scale_trigger = pinch_out_scale_trigger;
    }

    /// Accumulates an update into the live pinch and reports the
    /// accumulator when its scale delta crossed an early-fire threshold;
    /// with no live pinch this is a no-op.
    pub fn update(&mut self, dx: i64, dy: i64, angle: i64, scale: i64) -> (r: Option<PinchGesture>)
        requires
            old(self).wf(),
            -crate::events::EVENT_DELTA_LIMIT <= dx <= crate::events::EVENT_DELTA_LIMIT,
            -crate::events::EVENT_DELTA_LIMIT <= dy <= crate::events::EVENT_DELTA_LIMIT,
            -crate::events::EVENT_DELTA_LIMIT <= angle <= crate::events::EVENT_DELTA_LIMIT,
            -crate::events::EVENT_DELTA_LIMIT <= scale <= crate::events::EVENT_DELTA_LIMIT,
        ensures
            *final(self) == spec_pinch_builder_update(*old(self), dx as int, dy as int, angle as int, scale as int),
            final(self).wf(),
            r == spec_pinch_builder_fire(*old(self), dx as int, dy as int, angle as int, scale as int),
            r is Some ==> r.unwrap().wf(),
    {
        match self.pinch {
            Some(ref mut g) => {
                g.add(dx, dy, angle, scale);
                let fired = match g.direction() {
                    Some(PinchDirection::In) => {
                        self.pinch_in_scale_trigger != 0 && g.scale >= self.pinch_in_scale_trigger
                    },
                    Some(PinchDirection::Out) => {
                        self.pinch_out_scale_trigger != 0 && g.scale
                            <= -self.pinch_out_scale_trigger
                    },
                    None => false,
                };
                if fired {
                    Some(*g)
                } else {
                    None
                }
            },
            None => None,
        }
    }

    /// Consumes the live pinch, marking it cancelled when the end event
    /// was; with no live pinch returns `Err`.
    pub fn build(&mut self, cancelled: bool) -> (r: Result<PinchGesture, ()>)
        requires
            old(self).wf(),
        ensures
            *final(self) == (PinchBuilder { pinch: Option::<PinchGesture>::None, ..*old(self) }),
            r == (match old(self).pinch {
                Some(g) => Result::<PinchGesture, ()>::Ok(
                    PinchGesture { cancelled: g.cancelled || cancelled, ..g },
                ),
                None => Result::<PinchGesture, ()>::Err(()),
            }),
            r is Ok ==> r.unwrap().wf(),
    {
        let mut pinch: Option<PinchGesture> = None;
        core::mem::swap(&mut pinch, &mut self.pinch);
        match pinch {
            Some(mut g) => {
                if cancelled {
                    g.cancel();
                }
                Ok(g)
            },
            None => Err(()),
        }
    }
}

/// The pinch builder after an update: the live accumulator takes the
/// deltas; an empty builder stays empty.
pub open spec fn spec_pinch_builder_update(b: PinchBuilder, dx: int, dy: int, angle: int, scale: int) -> PinchBuilder {
    match b.pinch {
        Some(g) => PinchBuilder { pinch: Some(spec_pinch_add(g, dx, dy, angle, scale)), ..b },
        None => b,
    }
}

/// What a pinch update reports: the accumulator after the update when it
/// crossed an early-fire threshold, and nothing otherwise.
pub open spec fn spec_pinch_builder_fire(b: PinchBuilder, dx: int, dy: int, angle: int, scale: int) -> Option<PinchGesture> {
    match b.pinch {
        Some(g) => {
            let after = spec_pinch_add(g, dx, dy, angle, scale);
            if spec_early_fire(after, b.pinch_in_scale_trigger as int, b.pinch_out_scale_trigger as int) {
                Some(after)
            } else {
                None
            }
        },
        None => None,
    }
}

/// What one raw event amounted to. An emission carries the classified
/// gesture; the quiet outcomes differ so that a caller can log a cancelled
/// gesture, an unrecognized one, and an end event with no live gesture at
/// their own severities.
#[derive(Clone, Copy, Debug, PartialEq, Eq, Structural)]
pub enum GestureOutcome {
    /// A gesture was classified and is to be dispatched.
    Emitted(GestureType),
    /// The event began or extended a gesture; nothing to report yet.
    Pending,
    /// The gesture ended cancelled; it is discarded without emission.
    Cancelled,
    /// The gesture ended but its accumulated motion resolves to no
    /// direction; it is discarded without emission.
    Unrecognized,
    /// An end event arrived with no live gesture to finish.
    Orphan,
}

impl GestureOutcome {
    /// The outcome carries a gesture to dispatch.
    pub open spec fn is_emission(self) -> bool {
        self is Emitted
    }
}

/// Owner of the per-kind accumulators: feeds raw events through them and
/// reports each event's outcome.
#[derive(Clone, Copy, Debug, PartialEq, Eq, Structural)]
pub struct Listener {
    pub swipe: SwipeBuilder,
    pub pinch: PinchBuilder,
    pub pinch_in_scale_trigger: i64,
    pub pinch_out_scale_trigger: i64,
}

/// The listener state after one raw event.
pub open spec fn spec_listener_step(l: Listener, e: GestureEvent) -> Listener {
    match e {
        GestureEvent::SwipeBegin { fingers } => Listener {
            swipe: SwipeBuilder {
                swipe: Some(SwipeGesture { dx: 0, dy: 0, fingers, cancelled: false }),
            },
            ..l
        },
        GestureEvent::SwipeUpdate { dx, dy } => Listener {
            swipe: spec_swipe_builder_update(l.swipe, dx as int, dy as int),
            ..l
        },
        GestureEvent::SwipeEnd { .. } => Listener {
            swipe: SwipeBuilder { swipe: None },
            ..l
        },
        GestureEvent::PinchBegin { scale } => Listener {
            pinch: PinchBuilder {
                pinch: Some(PinchGesture {
                    initial_scale: scale,
                    scale: 0,
                    dx: 0,
                    dy: 0,
                    angle: 0,
                    cancelled: false,
                }),
                pinch_in_scale_trigger: l.pinch_in_scale_trigger,
                pinch_out_scale_trigger: l.pinch_out_scale_trigger,
            },
            ..l
        },
        GestureEvent::PinchUpdate { dx, dy, angle, scale } => {
            if spec_pinch_builder_fire(l.pinch, dx as int, dy as int, angle as int, scale as int)
                is Some {
                // An early fire re-baselines: a fresh accumulator starts at
                // the update's absolute scale, so one physical gesture can
                // fire repeatedly.
                Listener {
                    pinch: PinchBuilder {
                        pinch: Some(PinchGesture {
                            initial_scale: scale,
                            scale: 0,
                            dx: 0,
                            dy: 0,
                            angle: 0,
                            cancelled: false,
                        }),
                        pinch_in_scale_trigger: l.pinch_in_scale_trigger,
                        pinch_out_scale_trigger: l.pinch_out_scale_trigger,
                    },
                    ..l
                }
            } else {
                Listener {
                    pinch: spec_pinch_builder_update(l.pinch, dx as int, dy as int, angle as int, scale as int),
                    ..l
                }
            }
        },
        GestureEvent::PinchEnd { .. } => Listener {
            pinch: PinchBuilder { pinch: None, ..l.pinch },
            ..l
        },
    }
}

/// The outcome one raw event amounts to, given the listener state it meets.
pub open spec fn spec_listener_outcome(l: Listener, e: GestureEvent) -> GestureOutcome {
    match e {
        GestureEvent::SwipeBegin { .. } => GestureOutcome::Pending,
        GestureEvent::SwipeUpdate { .. } => GestureOutcome::Pending,
        GestureEvent::SwipeEnd { cancelled } => match l.swipe.swipe {
            Some(g) => {
                let done = SwipeGesture { cancelled: g.cancelled || cancelled, ..g };
                if done.cancelled {
                    GestureOutcome::Cancelled
                } else {
                    match spec_swipe_emission(done) {
                        Some(t) => GestureOutcome::Emitted(t),
                        None => GestureOutcome::Unrecognized,
                    }
                }
            },
            None => GestureOutcome::Orphan,
        },
        GestureEvent::PinchBegin { .. } => GestureOutcome::Pending,
        GestureEvent::PinchUpdate { dx, dy, angle, scale } => {
            match spec_pinch_builder_fire(l.pinch, dx as int, dy as int, angle as int, scale as int) {
                Some(p) => match spec_pinch_emission(p) {
                    Some(t) => GestureOutcome::Emitted(t),
                    None => GestureOutcome::Unrecognized,
                },
                None => GestureOutcome::Pending,
            }
        },
        GestureEvent::PinchEnd { cancelled } => match l.pinch.pinch {
            Some(g) => {
                let done = PinchGesture { cancelled: g.cancelled || cancelled, ..g };
                if done.cancelled {
                    GestureOutcome::Cancelled
                } else {
                    match spec_pinch_emission(done) {
                        Some(t) => GestureOutcome::Emitted(t),
                        None => GestureOutcome::Unrecognized,
                    }
                }
            },
            None => GestureOutcome::Orphan,
        },
    }
}

impl Listener {
    /// Both builders and both thresholds are well formed.
    pub open spec fn wf(self) -> bool {
        &&& self.swipe.wf()
        &&& self.pinch.wf()
        &&& -ACCUM_LIMIT <= self.pinch_in_scale_trigger <= ACCUM_LIMIT
        &&& -ACCUM_LIMIT <= self.pinch_out_scale_trigger <= ACCUM_LIMIT
    }

    /// A listener with no live gesture and the given early-fire thresholds
    /// (milli-scale; zero turns a threshold off).
    pub fn new(pinch_in_scale_trigger: i64, pinch_out_scale_trigger: i64) -> (l: Listener)
        requires
            -ACCUM_LIMIT <= pinch_in_scale_trigger <= ACCUM_LIMIT,
            -ACCUM_LIMIT <= pinch_out_scale_trigger <= ACCUM_LIMIT,
        ensures
            l == (Listener {
                swipe: SwipeBuilder { swipe: Option::<SwipeGesture>::None },
                pinch: PinchBuilder {
                    pinch: Option::<PinchGesture>::None,
                    pinch_in_scale_trigger: 0,
                    pinch_out_scale_trigger: 0,
                },
                pinch_in_scale_trigger,
                pinch_out_scale_trigger,
            }),
            l.wf(),
    {
        Listener {
            swipe: SwipeBuilder::empty(),
            pinch: PinchBuilder::empty(),
            pinch_in_scale_trigger,
            pinch_out_scale_trigger,
        }
    }

    /// Feeds one raw event through the accumulators: begins, extends or
    /// finishes the matching gesture kind and reports what the event
    /// amounted to. A pinch update that crosses an early-fire threshold
    /// emits at once and re-baselines, still mid-gesture.
    pub fn event(&mut self, event: &GestureEvent) -> (r: GestureOutcome)
        requires
            old(self).wf(),
            event.wf(),
        ensures
            *final(self) == spec_listener_step(*old(self), *event),
            r == spec_listener_outcome(*old(self), *event),
            final(self).wf(),
    {
        match *event {
            GestureEvent::SwipeBegin { fingers } => {
                self.swipe.new(fingers);
                GestureOutcome::Pending
            },
            GestureEvent::SwipeUpdate { dx, dy } => {
                self.swipe.update(dx, dy);
                GestureOutcome::Pending
            },
            GestureEvent::SwipeEnd { cancelled } => match self.swipe.build(cancelled) {
                Ok(g) => {
                    if g.cancelled {
                        GestureOutcome::Cancelled
                    } else {
                        match g.gesture_type() {
                            Some(t) => GestureOutcome::Emitted(t),
                            None => GestureOutcome::Unrecognized,
                        }
                    }
                },
                Err(()) => GestureOutcome::Orphan,
            },
            GestureEvent::PinchBegin { scale } => {
                self.pinch.new(scale, self.pinch_in_scale_trigger, self.pinch_out_scale_trigger);
                GestureOutcome::Pending
            },
            GestureEvent::PinchUpdate { dx, dy, angle, scale } => {
                match self.pinch.update(dx, dy, angle, scale) {
                    Some(p) => {
                        let out = match p.gesture_type() {
                            Some(t) => GestureOutcome::Emitted(t),
                            None => GestureOutcome::Unrecognized,
                        };
                        self.pinch.new(
                            scale,
                            self.pinch_in_scale_trigger,
                            self.pinch_out_scale_trigger,
                        );
                        out
                    },
                    None => GestureOutcome::Pending,
                }
            },
            GestureEvent::PinchEnd { cancelled } => match self.pinch.build(cancelled) {
                Ok(g) => {
                    if g.cancelled {
                        GestureOutcome::Cancelled
                    } else {
                        match g.gesture_type() {
                            Some(t) => GestureOutcome::Emitted(t),
                            None => GestureOutcome::Unrecognized,
                        }
                    }
                },
                Err(()) => GestureOutcome::Orphan,
            },
        }
    }
}

/// For any accumulated motion whose angle is vertical (strictly between
/// 75 and 105 degrees away from the horizontal axis) and any finger count
/// other than two, the swipe resolves Up exactly when `dy` is negative and
/// Down exactly when `dy` is positive.
pub proof fn lemma_vertical_swipe_direction(dx: int, dy: int, fingers: int)
    requires
        fingers != 2,
        spec_swipe_is_vertical(dx, dy),
    ensures
        spec_swipe_direction(dx, dy, fingers) == Some(SwipeDirection::Up) <==> dy < 0,
        spec_swipe_direction(dx, dy, fingers) == Some(SwipeDirection::Down) <==> dy > 0,
{
    assert(abs(dy) > 0);
}

/// A two-finger swipe resolves Right exactly when `dx` is positive, and
/// Left exactly when it is not, whatever `dy` accumulated; a motion with
/// `dx` exactly zero resolves Left.
pub proof fn lemma_two_finger_swipe_direction(dx: int, dy: int)
    ensures
        spec_swipe_direction(dx, dy, 2) == Some(SwipeDirection::Right) <==> dx > 0,
        spec_swipe_direction(dx, dy, 2) == Some(SwipeDirection::Left) <==> dx <= 0,
{
}

/// A cancelled swipe accumulator emits nothing, whatever it accumulated.
pub proof fn lemma_cancelled_swipe_emits_nothing(g: SwipeGesture)
    requires
        g.cancelled,
    ensures
        spec_swipe_emission(g) is None,
{
}

/// A swipe end event carrying the cancellation flag never emits a
/// gesture, whatever the listener had accumulated.
pub proof fn lemma_cancelled_swipe_end_outcome(l: Listener)
    ensures
        !spec_listener_outcome(l, GestureEvent::SwipeEnd { cancelled: true }).is_emission(),
{
}

/// Rotation precedence: whenever the accumulated angle of an uncancelled
/// pinch gesture is wide enough for a rotation, the emission is that
/// rotation, whatever the scale delta is.
pub proof fn lemma_rotation_precedence(g: PinchGesture)
    requires
        !g.cancelled,
        spec_is_rotation(g.angle as int),
    ensures
        spec_pinch_emission(g) == Some(
            GestureType::Rotation(
                if g.angle > ROTATION_ANGLE_LIMIT {
                    RotationDirection::Right
                } else {
                    RotationDirection::Left
                },
                g.angle,
            ),
        ),
{
}

} // verus!
