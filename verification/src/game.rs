//! The integer rules of the skiing game: obstacle kinds, steering, the
//! rescue dog's crash recovery and animation, sprite ids and game states.

use vstd::prelude::*;
use crate::text::str_chars;

verus! {

/// Minimum skiing angle (hard left).
pub const MIN_SKIER_ANGLE: i16 = 10;

/// Maximum skiing angle (hard right).
pub const MAX_SKIER_ANGLE: i16 = 130;

/// Center skiing angle (straight down the slope).
pub const CENTER_ANGLE: i16 = 70;

/// Crashes without a rescue after which the dog comes.
pub const DOG_CRASH_THRESHOLD: u32 = 5;

/// Sprite id of the dog's first frame.
pub const DOG_SPRITE_ID_BASE: u16 = 400;

/// Types of obstacles found on ski courses.
#[derive(Debug, Clone, Copy, PartialEq, Eq, Structural)]
pub enum ObstacleType {
    /// Tree obstacle (causes crash).
    Tree,
    /// Rock obstacle (causes crash).
    Rock,
    /// Jump ramp.
    Jump,
    /// Flag to collect.
    Flag,
    /// Other obstacle type.
    Other(u8),
}

/// The obstacle type of an image id: 0 to 5 trees, 6 to 10 rocks, 11 to 13
/// jumps, 14 to 16 flags, anything else other.
pub open spec fn obstacle_type_of(image_id: u8) -> ObstacleType {
    if image_id <= 5 {
        ObstacleType::Tree
    } else if image_id <= 10 {
        ObstacleType::Rock
    } else if image_id <= 13 {
        ObstacleType::Jump
    } else if image_id <= 16 {
        ObstacleType::Flag
    } else {
        ObstacleType::Other(image_id)
    }
}

impl From<u8> for ObstacleType {
    /// Converts an image/sprite ID into an obstacle type, by the ranges of
    /// the MacSki asset organization.
    fn from(image_id: u8) -> (t: Self) {
        if image_id <= 5 {
            ObstacleType::Tree
        } else if image_id <= 10 {
            ObstacleType::Rock
        } else if image_id <= 13 {
            ObstacleType::Jump
        } else if image_id <= 16 {
            ObstacleType::Flag
        } else {
            ObstacleType::Other(image_id)
        }
    }
}

impl vstd::std_specs::convert::FromSpecImpl<u8> for ObstacleType {
    open spec fn obeys_from_spec() -> bool {
        true
    }

    open spec fn from_spec(image_id: u8) -> Self {
        obstacle_type_of(image_id)
    }
}

/// The horizontal distance below which the skier touches an obstacle of
/// this type: 20 for trees, 15 for rocks, 30 for jumps, 25 for flags and
/// 20 for anything else.
pub open spec fn spec_collision_radius(t: ObstacleType) -> u8 {
    match t {
        ObstacleType::Tree => 20,
        ObstacleType::Rock => 15,
        ObstacleType::Jump => 30,
        ObstacleType::Flag => 25,
        ObstacleType::Other(_) => 20,
    }
}

/// Returns the collision radius for an obstacle type.
pub fn collision_radius(t: ObstacleType) -> (r: u8)
    ensures
        r == spec_collision_radius(t),
{
    match t {
        ObstacleType::Tree => 20,
        ObstacleType::Rock => 15,
        ObstacleType::Jump => 30,
        ObstacleType::Flag => 25,
        ObstacleType::Other(_) => 20,
    }
}

/// What touching an obstacle does to the skier.
#[derive(Debug, Clone, Copy, PartialEq, Eq, Structural)]
pub enum CollisionEffect {
    /// The skier crashes and keeps a tenth of its speed.
    Crash,
    /// The skier starts a jump.
    Jump,
    /// A flag is collected.
    CollectFlag,
    /// The skier keeps seven tenths of its speed.
    SlowDown,
}

/// The effect of touching an obstacle: trees and rocks crash the skier,
/// jumps launch it, flags are collected, anything else slows it down.
pub open spec fn spec_collision_effect(t: ObstacleType) -> CollisionEffect {
    match t {
        ObstacleType::Tree | ObstacleType::Rock => CollisionEffect::Crash,
        ObstacleType::Jump => CollisionEffect::Jump,
        ObstacleType::Flag => CollisionEffect::CollectFlag,
        ObstacleType::Other(_) => CollisionEffect::SlowDown,
    }
}

/// Decides what happens when the skier hits an obstacle.
pub fn collision_effect(t: ObstacleType) -> (e: CollisionEffect)
    ensures
        e == spec_collision_effect(t),
{
    match t {
        ObstacleType::Tree | ObstacleType::Rock => CollisionEffect::Crash,
        ObstacleType::Jump => CollisionEffect::Jump,
        ObstacleType::Flag => CollisionEffect::CollectFlag,
        ObstacleType::Other(_) => CollisionEffect::SlowDown,
    }
}

/// The skier's angle after one input frame: left and right together
/// cancel; otherwise the angle moves 2 degrees that way, kept within
/// `[MIN_SKIER_ANGLE, MAX_SKIER_ANGLE]`.
pub open spec fn spec_turn(angle: int, left: bool, right: bool) -> int {
    let turn: int = (if left { -1int } else { 0int }) + (if right { 1int } else { 0int });
    if turn == 0 {
        angle
    } else {
        let a = angle + 2 * turn;
        if a < MIN_SKIER_ANGLE { MIN_SKIER_ANGLE as int } else if a > MAX_SKIER_ANGLE { MAX_SKIER_ANGLE as int } else { a }
    }
}

/// Steers the skier for one input frame (`left`: left arrow or A held,
/// `right`: right arrow or D held).
pub fn turn_skier(angle: i16, left: bool, right: bool) -> (r: i16)
    requires
        i16::MIN + 2 <= angle <= i16::MAX - 2,
    ensures
        r == spec_turn(angle as int, left, right),
{
    let mut turn_input: i16 = 0;
    if left {
        turn_input -= 1;
    }
    if right {
        turn_input += 1;
    }
    if turn_input != 0 {
        let a = angle + turn_input * 2;
        if a < MIN_SKIER_ANGLE {
            MIN_SKIER_ANGLE
        } else if a > MAX_SKIER_ANGLE {
            MAX_SKIER_ANGLE
        } else {
            a
        }
    } else {
        angle
    }
}

/// How well an angle converts the slope into speed.
#[derive(Debug, Clone, Copy, PartialEq, Eq, Structural)]
pub enum AngleEfficiency {
    /// Below 20 or above 130 degrees: the skier loses speed.
    Inefficient,
    /// Neither inefficient nor optimal.
    Normal,
    /// From 60 to 80 degrees: the optimal downhill angle.
    Optimal,
}

/// The efficiency class of an angle.
pub open spec fn spec_efficiency(angle: int) -> AngleEfficiency {
    if angle < 20 || angle > 130 {
        AngleEfficiency::Inefficient
    } else if 60 <= angle <= 80 {
        AngleEfficiency::Optimal
    } else {
        AngleEfficiency::Normal
    }
}

/// Classifies an angle for acceleration.
pub fn calculate_angle_efficiency(angle: i16) -> (e: AngleEfficiency)
    ensures
        e == spec_efficiency(angle as int),
{
    if angle < 20 || angle > 130 {
        AngleEfficiency::Inefficient
    } else if angle >= 60 && angle <= 80 {
        AngleEfficiency::Optimal
    } else {
        AngleEfficiency::Normal
    }
}

/// The angle after one auto-centering step: one degree toward the center
/// angle when more than 2 degrees away from it.
pub open spec fn spec_auto_center(angle: int) -> int {
    if angle < CENTER_ANGLE - 2 {
        angle + 1
    } else if angle > CENTER_ANGLE + 2 {
        angle - 1
    } else {
        angle
    }
}

/// Applies auto-centering to the skier angle.
pub fn apply_auto_center(angle: &mut i16)
    ensures
        *final(angle) == spec_auto_center(*old(angle) as int),
{
    if *angle < CENTER_ANGLE - 2 {
        *angle = *angle + 1;
    } else if *angle > CENTER_ANGLE + 2 {
        *angle = *angle - 1;
    }
}

/// Steering keeps an angle that lies in `[MIN_SKIER_ANGLE, MAX_SKIER_ANGLE]`
/// within that range.
pub proof fn law_turn_stays_in_range(angle: int, left: bool, right: bool)
    requires
        MIN_SKIER_ANGLE <= angle <= MAX_SKIER_ANGLE,
    ensures
        MIN_SKIER_ANGLE <= spec_turn(angle, left, right) <= MAX_SKIER_ANGLE,
{
}

/// Auto-centering moves an angle by at most one degree, toward the center
/// angle and never past it.
pub proof fn law_auto_center_approaches(angle: int)
    ensures
        angle <= CENTER_ANGLE ==> angle <= spec_auto_center(angle) <= CENTER_ANGLE,
        angle >= CENTER_ANGLE ==> CENTER_ANGLE <= spec_auto_center(angle) <= angle,
        -1 <= spec_auto_center(angle) - angle <= 1,
{
}

/// The dog's sprite frames, by animation step.
pub open spec fn dog_sprite_lut() -> Seq<u16> {
    seq![0u16, 1, 2, 1, 3, 4, 5, 8, 12, 13, 12, 13, 14, 15, 16, 13, 12, 13, 12, 5, 4, 3, 1, 2, 1, 0, 1, 3,
        4, 5, 6, 7, 5, 4, 3, 1, 9, 10, 11, 0]
}

/// Entry `i` of the dog's sprite frame table.
fn dog_sprite_frame(i: usize) -> (f: u16)
    requires
        i < 40,
    ensures
        f == dog_sprite_lut()[i as int],
{
    let table: [u16; 40] = [0, 1, 2, 1, 3, 4, 5, 8, 12, 13, 12, 13, 14, 15, 16, 13, 12, 13, 12, 5, 4, 3, 1, 2, 1,
        0, 1, 3, 4, 5, 6, 7, 5, 4, 3, 1, 9, 10, 11, 0];
    assert(table@ =~= dog_sprite_lut());
    table[i]
}

/// The sprite id the dog shows: the pose frame while posing, else the
/// animation frame, looked up (past the table's end, at its last entry) and
/// offset by `DOG_SPRITE_ID_BASE`.
pub open spec fn spec_dog_sprite_id(anim_frame: u32, pose_frame: u32) -> int {
    let frame = if pose_frame != 0 { pose_frame } else { anim_frame };
    let idx = if frame < 39 { frame as int } else { 39 };
    DOG_SPRITE_ID_BASE + dog_sprite_lut()[idx]
}

/// Returns the sprite id for the dog's current frames.
pub fn current_dog_sprite_id(anim_frame: u32, pose_frame: u32) -> (id: u16)
    ensures
        id == spec_dog_sprite_id(anim_frame, pose_frame),
{
    let frame_index = if pose_frame != 0 { pose_frame } else { anim_frame };
    let lut_index: usize = if frame_index < 39 { frame_index as usize } else { 39 };
    DOG_SPRITE_ID_BASE + dog_sprite_frame(lut_index)
}

/// The decimal number that `digits` spell, if they are all digits.
pub open spec fn decimal_value(digits: Seq<char>) -> Option<int>
    decreases digits.len(),
{
    if digits.len() == 0 {
        Some(0)
    } else {
        let c = digits.last();
        if '0' <= c <= '9' {
            match decimal_value(digits.drop_last()) {
                Some(v) => Some(10 * v + (c as int - '0' as int)),
                None => None,
            }
        } else {
            None
        }
    }
}

/// `str::parse::<u16>`: an optional `+` then one or more decimal digits
/// whose value fits 16 bits.
pub open spec fn spec_parse_u16(s: Seq<char>) -> Option<u16> {
    let digits = if s.len() > 0 && s[0] == '+' { s.drop_first() } else { s };
    if digits.len() == 0 {
        None
    } else {
        match decimal_value(digits) {
            Some(v) => if v <= u16::MAX { Some(v as u16) } else { None },
            None => None,
        }
    }
}

/// The PICT id of an extracted file stem `PICT_<id>` or `pict_<id>`.
pub open spec fn spec_pict_id(stem: Seq<char>) -> Option<u16> {
    if stem.len() >= 5 && (stem.take(5) == seq!['P', 'I', 'C', 'T', '_'] || stem.take(5) == seq!['p', 'i', 'c', 't', '_']) {
        spec_parse_u16(stem.skip(5))
    } else {
        None
    }
}

/// Parses the PICT id out of an extracted sprite's file stem.
pub fn parse_pict_id_from_stem(stem: &str) -> (r: Option<u16>)
    ensures
        r == spec_pict_id(stem@),
{
    let chars = str_chars(stem);
    let n = chars.len();
    if n < 5 {
        return None;
    }
    let upper = chars[0] == 'P' && chars[1] == 'I' && chars[2] == 'C' && chars[3] == 'T' && chars[4] == '_';
    let lower = chars[0] == 'p' && chars[1] == 'i' && chars[2] == 'c' && chars[3] == 't' && chars[4] == '_';
    proof {
        assert(upper == (chars@.take(5) =~= seq!['P', 'I', 'C', 'T', '_']));
        assert(lower == (chars@.take(5) =~= seq!['p', 'i', 'c', 't', '_']));
    }
    if !upper && !lower {
        return None;
    }
    let ghost rest = chars@.skip(5);
    let mut start: usize = 5;
    if n > 5 && chars[5] == '+' {
        start = 6;
    }
    let ghost digits = if rest.len() > 0 && rest[0] == '+' { rest.drop_first() } else { rest };
    assert(digits =~= chars@.skip(start as int));
    assert(spec_pict_id(stem@) == spec_parse_u16(rest));
    if start >= n {
        return None;
    }
    let mut value: u32 = 0;
    let mut i: usize = start;
    while i < n
        invariant
            start <= i <= n,
            n == chars@.len(),
            digits == chars@.skip(start as int),
            decimal_value(chars@.subrange(start as int, i as int)) == Some(value as int),
            value <= u16::MAX,
            digits.len() > 0,
            spec_pict_id(stem@) == (match decimal_value(digits) {
                Some(v) => if v <= u16::MAX { Some(v as u16) } else { None },
                None => None,
            }),
        decreases n - i,
    {
        let c = chars[i];
        proof {
            assert(chars@.subrange(start as int, i + 1).drop_last() =~= chars@.subrange(start as int, i as int));
            assert(chars@.subrange(start as int, i + 1).last() == c);
        }
        proof {
            assert(digits.take(i + 1 - start) =~= chars@.subrange(start as int, i + 1));
        }
        if c < '0' || c > '9' {
            proof {
                lemma_decimal_none(chars@.subrange(start as int, i + 1), digits);
            }
            return None;
        }
        let d = (c as u32) - ('0' as u32);
        value = value * 10 + d;
        if value > 0xffff {
            proof {
                lemma_decimal_grows(chars@.subrange(start as int, i + 1), digits);
            }
            return None;
        }
        i += 1;
    }
    proof {
        assert(chars@.subrange(start as int, n as int) =~= digits);
    }
    Some(value as u16)
}

/// A prefix of digits that is not all digits makes the whole not all
/// digits.
proof fn lemma_decimal_none(prefix: Seq<char>, whole: Seq<char>)
    requires
        decimal_value(prefix) is None,
        prefix.len() <= whole.len(),
        whole.take(prefix.len() as int) == prefix,
    ensures
        decimal_value(whole) is None,
    decreases whole.len(),
{
    if whole.len() > prefix.len() {
        assert(whole.drop_last().take(prefix.len() as int) =~= prefix);
        lemma_decimal_none(prefix, whole.drop_last());
    } else {
        assert(whole =~= prefix);
    }
}

/// Appending digits never makes a decimal value smaller.
proof fn lemma_decimal_grows(prefix: Seq<char>, whole: Seq<char>)
    requires
        decimal_value(prefix) matches Some(v) && v > u16::MAX,
        prefix.len() <= whole.len(),
        whole.take(prefix.len() as int) == prefix,
    ensures
        !(decimal_value(whole) matches Some(w) && w <= u16::MAX),
    decreases whole.len(),
{
    if whole.len() > prefix.len() {
        assert(whole.drop_last().take(prefix.len() as int) =~= prefix);
        lemma_decimal_grows(prefix, whole.drop_last());
        lemma_decimal_nonneg(whole.drop_last());
    } else {
        assert(whole =~= prefix);
    }
}

proof fn lemma_decimal_nonneg(s: Seq<char>)
    ensures
        decimal_value(s) matches Some(v) ==> v >= 0,
    decreases s.len(),
{
    if s.len() > 0 {
        lemma_decimal_nonneg(s.drop_last());
    }
}

/// The dog always shows one of its own sprites: an id from
/// `DOG_SPRITE_ID_BASE` to 16 past it.
pub proof fn law_dog_sprite_in_range(anim_frame: u32, pose_frame: u32)
    ensures
        DOG_SPRITE_ID_BASE <= spec_dog_sprite_id(anim_frame, pose_frame) <= DOG_SPRITE_ID_BASE + 16,
{
    let frame = if pose_frame != 0 { pose_frame } else { anim_frame };
    let idx = if frame < 39 { frame as int } else { 39 };
    assert(dog_sprite_lut()[idx] <= 16);
}

/// Where the rescue dog appears: its horizontal offset from the skier and
/// its height on screen.
#[derive(Debug, Clone, Copy, PartialEq, Eq, Structural)]
pub struct DogPlacement {
    /// Skier X offset used to anchor the dog near the skier.
    pub skier_offset_x: u8,
    /// Vertical screen offset of the dog sequence.
    pub screen_y: u8,
}

/// The dog's placement for a skier at `angle`: it depends on which way the
/// skier faces (up to 59, 60 to 79, 80 and up).
pub open spec fn spec_dog_placement(angle: int) -> DogPlacement {
    if angle <= 59 {
        DogPlacement { skier_offset_x: 32, screen_y: 17 }
    } else if angle <= 79 {
        DogPlacement { skier_offset_x: 22, screen_y: 20 }
    } else {
        DogPlacement { skier_offset_x: 50, screen_y: 8 }
    }
}

/// The crash bookkeeping after a crashed skier recovers.
#[derive(Debug, Clone, Copy, PartialEq, Eq, Structural)]
pub struct CrashRecovery {
    /// Crashes since the last rescue.
    pub crashes_since_dog: u32,
    /// Whether a rescue is under way.
    pub dog_rescue_active: bool,
    /// The dog to send now, if one comes.
    pub dog: Option<DogPlacement>,
}

/// Counts a recovered crash: while no rescue is under way the crash counts
/// (saturating), and once `DOG_CRASH_THRESHOLD` crashes have counted a
/// rescue starts, with the dog placed by the skier's angle.
pub fn recover_from_crash(crashes_since_dog: u32, dog_rescue_active: bool, angle: i16) -> (r: CrashRecovery)
    ensures
        r.crashes_since_dog == (if !dog_rescue_active {
            if crashes_since_dog < u32::MAX { crashes_since_dog + 1 } else { crashes_since_dog as int }
        } else {
            crashes_since_dog as int
        }),
        r.dog == (if r.crashes_since_dog >= DOG_CRASH_THRESHOLD && !dog_rescue_active {
            Some(spec_dog_placement(angle as int))
        } else {
            None
        }),
        r.dog_rescue_active == (dog_rescue_active || r.dog is Some),
{
    let mut crashes = crashes_since_dog;
    let mut active = dog_rescue_active;
    if !active {
        crashes = crashes.saturating_add(1);
    }
    let mut dog: Option<DogPlacement> = None;
    if crashes >= DOG_CRASH_THRESHOLD && !active {
        active = true;
        let placement = if angle <= 59 {
            DogPlacement { skier_offset_x: 32, screen_y: 17 }
        } else if angle <= 79 {
            DogPlacement { skier_offset_x: 22, screen_y: 20 }
        } else {
            DogPlacement { skier_offset_x: 50, screen_y: 8 }
        };
        dog = Some(placement);
    }
    CrashRecovery { crashes_since_dog: crashes, dog_rescue_active: active, dog }
}

/// What the dog does in a frame, beyond counting frames.
#[derive(Debug, Clone, Copy, PartialEq, Eq, Structural)]
pub enum DogPhase {
    /// Running in toward the skier (animation frames below 5).
    Approach,
    /// Pulling the skier until the rescue distance is reached (frame 15).
    Wait,
    /// Running off screen (frames past 21).
    Leave,
    /// No movement this frame.
    Still,
}

/// The animation frame after counting one frame, and what the dog does:
/// while not posing the animation frame advances (saturating).
pub open spec fn spec_dog_begin(anim_frame: u32, pose_frame: u32) -> (u32, DogPhase) {
    if pose_frame == 0 {
        let a: u32 = if anim_frame < u32::MAX { (anim_frame + 1) as u32 } else { anim_frame };
        let phase = if a < 5 {
            DogPhase::Approach
        } else if a == 0xf {
            DogPhase::Wait
        } else if a > 0x15 {
            DogPhase::Leave
        } else {
            DogPhase::Still
        };
        (a, phase)
    } else {
        (anim_frame, DogPhase::Still)
    }
}

/// Starts the dog's frame: counts the animation frame and says what
/// movement the frame needs.
pub fn dog_begin_frame(anim_frame: u32, pose_frame: u32) -> (r: (u32, DogPhase))
    ensures
        r == spec_dog_begin(anim_frame, pose_frame),
{
    if pose_frame == 0 {
        let a = anim_frame.saturating_add(1);
        let phase = if a < 5 {
            DogPhase::Approach
        } else if a == 0xf {
            DogPhase::Wait
        } else if a > 0x15 {
            DogPhase::Leave
        } else {
            DogPhase::Still
        };
        (a, phase)
    } else {
        (anim_frame, DogPhase::Still)
    }
}

/// How the dog's frame ends.
#[derive(Debug, Clone, Copy, PartialEq, Eq, Structural)]
pub enum DogOutcome {
    /// The dog ran off screen: it goes away and the rescue is over (the
    /// crash count restarts).
    Gone,
    /// The dog stays with these frames; `release_skier` says whether the
    /// skier gets back up this frame.
    Stays { anim_frame: u32, pose_frame: u32, release_skier: bool },
}

/// How the dog's frame ends, given its frames after `spec_dog_begin`, the
/// phase, the outcome of that phase's movement (`arrived`: the dog reached
/// its anchor beside the skier when approaching, the skier is still short
/// of the rescue distance when waiting, the dog is off screen when
/// leaving) and whether the skier is down.
pub open spec fn spec_dog_end(anim_frame: u32, pose_frame: u32, phase: DogPhase, arrived: bool, skier_crashed: bool) -> DogOutcome {
    if phase is Leave && arrived {
        DogOutcome::Gone
    } else {
        let a: u32 = if phase is Approach && arrived {
            4
        } else if phase is Wait && arrived {
            0xd
        } else if phase is Leave && anim_frame > 0x19 {
            0x16
        } else {
            anim_frame
        };
        if pose_frame == 0 && a == 0xb {
            DogOutcome::Stays { anim_frame: a, pose_frame: if skier_crashed { 0x1a } else { 0 }, release_skier: false }
        } else if pose_frame != 0 {
            let p: u32 = if pose_frame < u32::MAX { (pose_frame + 1) as u32 } else { pose_frame };
            DogOutcome::Stays {
                anim_frame: a,
                pose_frame: if p == 0x24 || p > 0x26 { 0 } else { p },
                release_skier: p == 0x25,
            }
        } else {
            DogOutcome::Stays { anim_frame: a, pose_frame, release_skier: false }
        }
    }
}

/// Ends the dog's frame: applies the outcome of the phase's movement, then
/// the pose sequence (the dog starts posing at frame 11 beside a crashed
/// skier; the skier gets up at pose frame 37; the pose ends at frame 36 or
/// past 38).
pub fn dog_end_frame(anim_frame: u32, pose_frame: u32, phase: DogPhase, arrived: bool, skier_crashed: bool) -> (r: DogOutcome)
    ensures
        r == spec_dog_end(anim_frame, pose_frame, phase, arrived, skier_crashed),
{
    let mut anim = anim_frame;
    match phase {
        DogPhase::Approach => {
            if arrived {
                anim = 4;
            }
        },
        DogPhase::Wait => {
            if arrived {
                anim = 0xd;
            }
        },
        DogPhase::Leave => {
            if arrived {
                return DogOutcome::Gone;
            }
            if anim > 0x19 {
                anim = 0x16;
            }
        },
        DogPhase::Still => {},
    }
    let mut pose = pose_frame;
    let mut release_skier = false;
    if pose == 0 && anim == 0xb {
        if skier_crashed {
            pose = 0x1a;
        }
    } else if pose != 0 {
        pose = pose.saturating_add(1);
        if pose == 0x25 {
            release_skier = true;
        }
        if pose == 0x24 || pose > 0x26 {
            pose = 0;
        }
    }
    DogOutcome::Stays { anim_frame: anim, pose_frame: pose, release_skier }
}

/// Represents the current state of the game.
/// The rescue bookkeeping of a run.
#[derive(Debug, Clone, Copy, PartialEq, Eq, Structural)]
pub struct RescueLifecycle {
    /// Crashes since the last rescue.
    pub crashes_since_dog: u32,
    /// Whether a rescue is under way.
    pub dog_rescue_active: bool,
}

/// The bookkeeping once a rescue is over: no rescue under way, no crash
/// counted.
pub open spec fn rescue_over() -> RescueLifecycle {
    RescueLifecycle { crashes_since_dog: 0, dog_rescue_active: false }
}

/// The rescue bookkeeping after a dog's frame: once the dog is gone no
/// rescue is under way and the crash count starts over; while it stays
/// nothing changes.
pub fn rescue_after_dog(s: RescueLifecycle, o: DogOutcome) -> (r: RescueLifecycle)
    ensures
        (o is Gone) ==> r == rescue_over(),
        !(o is Gone) ==> r == s,
{
    match o {
        DogOutcome::Gone => RescueLifecycle { crashes_since_dog: 0, dog_rescue_active: false },
        DogOutcome::Stays { .. } => s,
    }
}

/// The counters of a run.
#[derive(Debug, Clone, Copy, PartialEq, Eq, Structural)]
pub struct RunTally {
    /// Flags collected.
    pub flags_collected: u32,
    /// Jumps performed.
    pub jumps_performed: u32,
    /// Crashes recovered from.
    pub crashes: u32,
}

/// The counters with one more flag collected (saturating).
pub open spec fn tally_with_flag(t: RunTally) -> RunTally {
    RunTally {
        flags_collected: if t.flags_collected < u32::MAX { (t.flags_collected + 1) as u32 } else { t.flags_collected },
        ..t
    }
}

/// The counters with one more crash.
pub open spec fn tally_with_crash(t: RunTally) -> RunTally {
    RunTally { crashes: (t.crashes + 1) as u32, ..t }
}

/// The counters after touching an obstacle: a flag is collected for points
/// (the count saturates); other obstacles change no counter.
pub fn record_collision(t: RunTally, e: CollisionEffect) -> (r: RunTally)
    ensures
        (e is CollectFlag) ==> r == tally_with_flag(t),
        !(e is CollectFlag) ==> r == t,
{
    match e {
        CollisionEffect::CollectFlag => RunTally { flags_collected: t.flags_collected.saturating_add(1), ..t },
        _ => t,
    }
}

/// The counters after the skier recovers from a crash: one more crash.
pub fn record_recovery(t: RunTally) -> (r: RunTally)
    requires
        t.crashes < u32::MAX,
    ensures
        r == tally_with_crash(t),
{
    RunTally { crashes: t.crashes + 1, ..t }
}

#[derive(Debug, Clone, Copy, PartialEq, Eq, Structural, Hash)]
pub enum GameState {
    /// Ski lodge (hub/menu) screen.
    SkiLodge,
    /// Main menu screen.
    MainMenu,
    /// Course selection screen.
    CourseSelect,
    /// Actively playing/skiing.
    Playing,
    /// Game is paused.
    Paused,
    /// Game over screen.
    GameOver,
    /// Course editor mode.
    Editor,
}

impl Default for GameState {
    /// The game starts in the ski lodge.
    fn default() -> (s: Self)
        ensures
            s == GameState::SkiLodge,
    {
        GameState::SkiLodge
    }
}

/// Game configuration settings.
#[derive(Debug, Clone, Copy, PartialEq, Eq, Structural)]
pub struct GameSettings {
    /// Whether sound effects are enabled.
    pub sound_enabled: bool,
    /// Whether animations are enabled.
    pub animation_enabled: bool,
    /// Whether ski trails should be shown.
    pub show_trails: bool,
}

impl Default for GameSettings {
    /// Everything is enabled by default.
    fn default() -> (s: Self)
        ensures
            s.sound_enabled && s.animation_enabled && s.show_trails,
    {
        GameSettings { sound_enabled: true, animation_enabled: true, show_trails: true }
    }
}

} // verus!
