//! How the front end shows the pet: which pose a state projects to, which
//! incoming snapshot replaces the shown one, and when the idle pet blinks.

use vstd::prelude::*;
use vstd::string::*;
use crate::pet_domain::{PetSnapshot, PetState};

verus! {

/// The pose drawn on screen.
#[derive(Debug, Clone, Copy, PartialEq, Eq, Structural)]
pub enum PetPose {
    Idle,
    Blink,
    Interact,
    Sleep,
}

/// The pose of a state: only an idle pet blinks; interacting and sleeping
/// win over a blink.
pub open spec fn pose_of(state: PetState, blinking: bool) -> PetPose {
    match state {
        PetState::Idle => if blinking {
            PetPose::Blink
        } else {
            PetPose::Idle
        },
        PetState::Interacting => PetPose::Interact,
        PetState::Sleeping => PetPose::Sleep,
    }
}

/// Whether an incoming snapshot replaces the shown one: always when nothing is
/// shown yet, otherwise when it is not older.
pub open spec fn replaces(current: Option<PetSnapshot>, incoming: PetSnapshot) -> bool {
    match current {
        Some(shown) => incoming.revision >= shown.revision,
        None => true,
    }
}

/// The snapshot shown after `incoming` arrives.
pub open spec fn shown_after(current: Option<PetSnapshot>, incoming: PetSnapshot) -> Option<PetSnapshot> {
    if replaces(current, incoming) {
        Some(incoming)
    } else {
        current
    }
}

/// Whether a blink tick starts a blink: only when an idle pet is shown.
pub open spec fn blinks(current: Option<PetSnapshot>) -> bool {
    match current {
        Some(shown) => shown.state == PetState::Idle,
        None => false,
    }
}

/// Projects a state onto a pose.
pub fn project_pose(state: PetState, blinking: bool) -> (r: PetPose)
    ensures
        r == pose_of(state, blinking),
{
    match state {
        PetState::Idle => {
            if blinking {
                PetPose::Blink
            } else {
                PetPose::Idle
            }
        },
        PetState::Interacting => PetPose::Interact,
        PetState::Sleeping => PetPose::Sleep,
    }
}

/// The pose shown for what is on screen, if anything is.
pub fn current_pose(current: Option<PetSnapshot>, blinking: bool) -> (r: Option<PetPose>)
    ensures
        r == match current {
            Some(shown) => Some(pose_of(shown.state, blinking)),
            None => None::<PetPose>,
        },
{
    match current {
        Some(shown) => Some(project_pose(shown.state, blinking)),
        None => None,
    }
}

/// Takes an incoming snapshot unless an older one than the shown one: the
/// shown revision never goes backwards, whatever order snapshots arrive in.
pub fn apply_snapshot(current: Option<PetSnapshot>, incoming: PetSnapshot) -> (r: Option<PetSnapshot>)
    ensures
        r == shown_after(current, incoming),
{
    let should_apply = match current {
        Some(shown) => incoming.revision >= shown.revision,
        None => true,
    };
    if should_apply {
        Some(incoming)
    } else {
        current
    }
}

/// Decides, on a blink tick, whether the pet starts blinking.
pub fn should_blink(current: Option<PetSnapshot>) -> (r: bool)
    ensures
        r == blinks(current),
{
    match current {
        Some(shown) => shown.state == PetState::Idle,
        None => false,
    }
}

/// The face drawn for a pose, or a paw print while nothing is loaded.
pub open spec fn face_of(pose: Option<PetPose>) -> Seq<char> {
    match pose {
        Some(PetPose::Idle) => "😺"@,
        Some(PetPose::Blink) => "😻"@,
        Some(PetPose::Interact) => "😸"@,
        Some(PetPose::Sleep) => "😴"@,
        None => "🐾"@,
    }
}

/// The caption shown under the face.
pub open spec fn label_of(pose: Option<PetPose>) -> Seq<char> {
    match pose {
        Some(PetPose::Idle) => "待機"@,
        Some(PetPose::Blink) => "眨眼"@,
        Some(PetPose::Interact) => "互動"@,
        Some(PetPose::Sleep) => "睡覺"@,
        None => "載入中"@,
    }
}

/// The face for a pose.
pub fn pose_face(pose: Option<PetPose>) -> (r: &'static str)
    ensures
        r@ == face_of(pose),
{
    match pose {
        Some(PetPose::Idle) => "😺",
        Some(PetPose::Blink) => "😻",
        Some(PetPose::Interact) => "😸",
        Some(PetPose::Sleep) => "😴",
        None => "🐾",
    }
}

/// The caption for a pose.
pub fn pose_label(pose: Option<PetPose>) -> (r: &'static str)
    ensures
        r@ == label_of(pose),
{
    match pose {
        Some(PetPose::Idle) => "待機",
        Some(PetPose::Blink) => "眨眼",
        Some(PetPose::Interact) => "互動",
        Some(PetPose::Sleep) => "睡覺",
        None => "載入中",
    }
}

/// The character of a decimal digit.
pub open spec fn digit_char(digit: nat) -> char {
    (48 + digit) as char
}

/// The decimal digits of `n`, most significant first, with no leading zero.
pub open spec fn decimal(n: nat) -> Seq<char>
    decreases n,
{
    if n < 10 {
        seq![digit_char(n)]
    } else {
        decimal(n / 10).push(digit_char(n % 10))
    }
}

/// The revision caption: the shown revision in decimal, or `-` while nothing
/// is shown.
pub open spec fn revision_text(current: Option<PetSnapshot>) -> Seq<char> {
    match current {
        Some(shown) => decimal(shown.revision as nat),
        None => "-"@,
    }
}

fn digit_str(digit: u64) -> (r: &'static str)
    requires
        digit < 10,
    ensures
        r@ == seq![digit_char(digit as nat)],
{
    proof {
        reveal_strlit("0");
        reveal_strlit("1");
        reveal_strlit("2");
        reveal_strlit("3");
        reveal_strlit("4");
        reveal_strlit("5");
        reveal_strlit("6");
        reveal_strlit("7");
        reveal_strlit("8");
        reveal_strlit("9");
    }
    match digit {
        0 => "0",
        1 => "1",
        2 => "2",
        3 => "3",
        4 => "4",
        5 => "5",
        6 => "6",
        7 => "7",
        8 => "8",
        _ => "9",
    }
}

fn decimal_string(n: u64) -> (r: String)
    ensures
        r@ == decimal(n as nat),
    decreases n,
{
    if n < 10 {
        String::from_str(digit_str(n))
    } else {
        let mut out = decimal_string(n / 10);
        out.append(digit_str(n % 10));
        out
    }
}

/// The caption that shows the revision of what is on screen.
pub fn revision_caption(current: Option<PetSnapshot>) -> (r: String)
    ensures
        r@ == revision_text(current),
{
    match current {
        Some(shown) => decimal_string(shown.revision),
        None => String::from_str("-"),
    }
}

/// The pet is drawn blinking exactly when it is idle and a blink is running;
/// any other state ignores the blink.
pub proof fn lemma_only_idle_blinks(state: PetState, blinking: bool)
    ensures
        pose_of(state, blinking) == PetPose::Blink <==> (state == PetState::Idle && blinking),
        state != PetState::Idle ==> pose_of(state, true) == pose_of(state, false),
{
}

/// Once something is shown, something stays shown, and its revision never goes
/// backwards.
pub proof fn lemma_shown_revision_never_decreases(current: Option<PetSnapshot>, incoming: PetSnapshot)
    ensures
        shown_after(current, incoming) is Some,
        current matches Some(shown) ==> shown_after(current, incoming).unwrap().revision >= shown.revision,
{
}

/// Delivering the same snapshot twice shows the same as delivering it once.
pub proof fn lemma_redelivery_changes_nothing(current: Option<PetSnapshot>, incoming: PetSnapshot)
    ensures
        shown_after(shown_after(current, incoming), incoming) == shown_after(current, incoming),
{
}

/// Of two snapshots, the newer one ends up shown, whichever arrives first.
pub proof fn lemma_newest_snapshot_wins(current: Option<PetSnapshot>, a: PetSnapshot, b: PetSnapshot)
    requires
        a.revision < b.revision,
        replaces(current, b),
    ensures
        shown_after(shown_after(current, a), b) == Some(b),
        shown_after(shown_after(current, b), a) == Some(b),
{
}

/// The snapshot shown after a run of deliveries, in the order they arrive.
pub open spec fn shown_after_all(current: Option<PetSnapshot>, incoming: Seq<PetSnapshot>) -> Option<PetSnapshot>
    decreases incoming.len(),
{
    if incoming.len() == 0 {
        current
    } else {
        shown_after_all(shown_after(current, incoming[0]), incoming.drop_first())
    }
}

/// Whatever order snapshots are delivered in, what ends up shown is one of
/// them (or what was shown before) and is at least as new as every one of them.
pub proof fn lemma_newest_delivered_is_shown(current: Option<PetSnapshot>, incoming: Seq<PetSnapshot>)
    requires
        current is Some || incoming.len() > 0,
    ensures
        shown_after_all(current, incoming) is Some,
        shown_after_all(current, incoming) == current || incoming.contains(
            shown_after_all(current, incoming).unwrap(),
        ),
        forall|i: int|
            0 <= i < incoming.len() ==> #[trigger] incoming[i].revision <= shown_after_all(
                current,
                incoming,
            ).unwrap().revision,
        current matches Some(shown) ==> shown.revision <= shown_after_all(current, incoming).unwrap().revision,
    decreases incoming.len(),
{
    if incoming.len() > 0 {
        let next = shown_after(current, incoming[0]);
        let rest = incoming.drop_first();
        lemma_newest_delivered_is_shown(next, rest);
        let r = shown_after_all(current, incoming);
        assert(r == shown_after_all(next, rest));
        if r != next {
            assert(rest.contains(r.unwrap()));
            let j = choose|j: int| 0 <= j < rest.len() && rest[j] == r.unwrap();
            assert(incoming[j + 1] == r.unwrap());
        } else if next != current {
            assert(incoming[0] == r.unwrap());
        }
        assert forall|i: int| 0 <= i < incoming.len() implies #[trigger] incoming[i].revision <= r.unwrap().revision by {
            if i > 0 {
                assert(incoming[i] == rest[i - 1]);
            }
        }
    }
}

/// A blink tick starts a blink exactly when an idle pet is shown, whatever
/// its revision, and never while nothing is shown.
pub proof fn lemma_idle_pet_blinks_at_any_revision(shown: PetSnapshot)
    ensures
        blinks(Some(shown)) == (shown.state == PetState::Idle),
        !blinks(None),
{
}

/// Each state's pose: idle shows idle or a blink, interacting shows the
/// interaction, sleeping shows sleep.
pub proof fn lemma_pose_of_each_state(blinking: bool)
    ensures
        pose_of(PetState::Idle, blinking) == (if blinking {
            PetPose::Blink
        } else {
            PetPose::Idle
        }),
        pose_of(PetState::Interacting, blinking) == PetPose::Interact,
        pose_of(PetState::Sleeping, blinking) == PetPose::Sleep,
{
}

/// A snapshot of the same revision as the shown one replaces it, an older one
/// never does, and the first snapshot is always shown.
pub proof fn lemma_which_snapshot_replaces(shown: PetSnapshot, incoming: PetSnapshot)
    ensures
        incoming.revision >= shown.revision ==> shown_after(Some(shown), incoming) == Some(incoming),
        incoming.revision < shown.revision ==> shown_after(Some(shown), incoming) == Some(shown),
        shown_after(None, incoming) == Some(incoming),
{
}

/// The number that a string of decimal digits stands for, read from the
/// most significant digit.
pub open spec fn digits_value(digits: Seq<char>) -> int
    decreases digits.len(),
{
    if digits.len() == 0 {
        0
    } else {
        digits_value(digits.drop_last()) * 10 + (digits.last() as int - 48)
    }
}

/// The revision caption of a shown snapshot is made of decimal digits only,
/// has no leading zero, and reads back as the revision.
pub proof fn lemma_decimal_reads_back(n: nat)
    ensures
        decimal(n).len() >= 1,
        forall|i: int| 0 <= i < decimal(n).len() ==> '0' <= #[trigger] decimal(n)[i] <= '9',
        n > 0 ==> decimal(n)[0] != '0',
        digits_value(decimal(n)) == n,
    decreases n,
{
    if n >= 10 {
        lemma_decimal_reads_back(n / 10);
        let d = decimal(n);
        let front = decimal(n / 10);
        assert(d == front.push(digit_char(n % 10)));
        assert(d.drop_last() =~= front);
        assert(0 <= n % 10 < 10);
        assert(n == (n / 10) * 10 + n % 10);
        assert forall|i: int| 0 <= i < d.len() implies '0' <= #[trigger] d[i] <= '9' by {
            if i < front.len() {
                assert(d[i] == front[i]);
            }
        }
        assert(d[0] == front[0]);
        assert(d.last() == digit_char(n % 10));
        assert(digit_char(n % 10) as int == 48 + n % 10);
        assert(digits_value(d) == digits_value(front) * 10 + (d.last() as int - 48));
    } else {
        let d = decimal(n);
        assert(d == seq![digit_char(n)]);
        assert(d.drop_last() =~= Seq::<char>::empty());
        assert(digit_char(n) as int == 48 + n);
        assert(digits_value(d) == digits_value(d.drop_last()) * 10 + (d.last() as int - 48));
    }
}

} // verus!
