//! Bouncing paths, unrolled into straight ones.
//!
//! A shot that bounces off a side wall goes on as if it had passed into a
//! mirrored copy of the screen: a reflection keeps the slope. So a path with
//! bounces is a straight line in the plane made of the screen and its mirror
//! copies, side by side, and aiming a bouncing shot is aiming at the right
//! point of that plane.

use vstd::arithmetic::div_mod::lemma_fundamental_div_mod_converse;
use vstd::prelude::*;

verus! {

/// A bouncing path unrolled into a straight one: the shot runs to the wall it
/// first heads for, crosses the screen `full_spans` times, and runs from the
/// last wall to the player.
#[derive(Clone, Copy, Debug, PartialEq, Eq, Structural)]
pub struct UnrolledPath {
    /// Whether the shot first travels towards the right wall.
    pub heads_right: bool,
    /// Whether the last segment comes off the right wall.
    pub arrives_from_right: bool,
    /// Number of wall-to-wall crossings between the first and the last bounce.
    pub full_spans: u32,
}

/// The side from which a shot reaches the player after `bounce_count` bounces:
/// every bounce turns the shot around, so it comes off the right wall iff it
/// set out to the right and bounced an odd number of times, or set out to the
/// left and bounced an even number of times.
pub open spec fn arrives_from_right(bounce_count: u32, heads_right: bool) -> bool {
    heads_right != (bounce_count % 2 == 0)
}

/// Wall-to-wall crossings of a path with `bounce_count` bounces: one for each
/// bounce after the first.
pub open spec fn full_spans(bounce_count: u32) -> u32 {
    if bounce_count >= 1 {
        (bounce_count - 1) as u32
    } else {
        0
    }
}

/// The unrolled path of a shot that bounces `bounce_count` times and sets out
/// to the right iff `heads_right`.
pub open spec fn unrolled(bounce_count: u32, heads_right: bool) -> UnrolledPath {
    UnrolledPath {
        heads_right,
        arrives_from_right: arrives_from_right(bounce_count, heads_right),
        full_spans: full_spans(bounce_count),
    }
}

impl UnrolledPath {
    /// Horizontal distance from the shooter to the wall the shot first heads for.
    pub open spec fn initial_x_dist(self, screen_width: int, origin_x: int) -> int {
        if self.heads_right {
            screen_width - origin_x
        } else {
            origin_x
        }
    }

    /// Horizontal distance from the wall of the last bounce to the player.
    pub open spec fn final_x_dist(self, screen_width: int, player_x: int) -> int {
        if self.arrives_from_right {
            screen_width - player_x
        } else {
            player_x
        }
    }

    /// Horizontal distance covered between the first and the last bounce.
    pub open spec fn mid_x_dists(self, screen_width: int) -> int {
        screen_width * self.full_spans
    }

    /// Horizontal length of the whole unrolled path.
    pub open spec fn total_x_dist(self, screen_width: int, origin_x: int, player_x: int) -> int {
        self.initial_x_dist(screen_width, origin_x) + self.mid_x_dists(screen_width)
            + self.final_x_dist(screen_width, player_x)
    }

    /// Where the unrolled path ends, in the plane of the screen and its mirror
    /// copies: its whole length to the right of the shooter, or to the left.
    pub open spec fn end_x(self, screen_width: int, origin_x: int, player_x: int) -> int {
        if self.heads_right {
            origin_x + self.total_x_dist(screen_width, origin_x, player_x)
        } else {
            origin_x - self.total_x_dist(screen_width, origin_x, player_x)
        }
    }
}

/// The point of the screen that lies under the point `x` of the plane of
/// mirror copies. The screen itself reaches from 0 to `screen_width`; every
/// second copy is mirrored.
pub open spec fn folded(x: int, screen_width: int) -> int {
    let across = x % (2 * screen_width);
    if across <= screen_width {
        across
    } else {
        2 * screen_width - across
    }
}

/// Unrolls the path of a shot that bounces `bounce_count` times.
pub fn unroll(bounce_count: u32, heads_right: bool) -> (path: UnrolledPath)
    ensures
        path == unrolled(bounce_count, heads_right),
{
    let even = bounce_count % 2 == 0;
    UnrolledPath {
        heads_right,
        arrives_from_right: heads_right != even,
        full_spans: if bounce_count >= 1 {
            bounce_count - 1
        } else {
            0
        },
    }
}

/// Every further bounce, and the other first direction, each turn the side
/// from which the shot arrives.
pub proof fn lemma_bounce_turns_arrival(bounce_count: u32, heads_right: bool)
    requires
        bounce_count < u32::MAX,
    ensures
        arrives_from_right((bounce_count + 1) as u32, heads_right) != arrives_from_right(
            bounce_count,
            heads_right,
        ),
        arrives_from_right(bounce_count, !heads_right) != arrives_from_right(
            bounce_count,
            heads_right,
        ),
{
}

/// A shot that bounces once crosses no full screen width: its unrolled path is
/// the run to the wall followed directly by the run from that wall to the
/// player.
pub proof fn lemma_single_bounce_has_no_middle(
    heads_right: bool,
    screen_width: int,
    origin_x: int,
    player_x: int,
)
    ensures
        unrolled(1, heads_right).full_spans == 0,
        unrolled(1, heads_right).arrives_from_right == heads_right,
        unrolled(1, heads_right).mid_x_dists(screen_width) == 0,
        unrolled(1, heads_right).total_x_dist(screen_width, origin_x, player_x) == unrolled(
            1,
            heads_right,
        ).initial_x_dist(screen_width, origin_x) + unrolled(1, heads_right).final_x_dist(
            screen_width,
            player_x,
        ),
{
    assert(screen_width * 0 == 0) by (nonlinear_arith);
}

/// A point that lies `offset` to either side of the left wall of an unmirrored
/// copy of the screen lies over the point `offset` of the screen.
proof fn lemma_folded(screen_width: int, copies: int, offset: int)
    requires
        screen_width > 0,
        0 <= offset <= screen_width,
    ensures
        folded(2 * screen_width * copies + offset, screen_width) == offset,
        folded(2 * screen_width * copies - offset, screen_width) == offset,
{
    let period = 2 * screen_width;
    assert(copies * period == 2 * screen_width * copies) by (nonlinear_arith)
        requires
            period == 2 * screen_width,
    ;
    lemma_fundamental_div_mod_converse(period * copies + offset, period, copies, offset);
    if offset == 0 {
    } else {
        assert((copies - 1) * period + (period - offset) == 2 * screen_width * copies - offset)
            by (nonlinear_arith)
            requires
                period == 2 * screen_width,
        ;
        lemma_fundamental_div_mod_converse(
            2 * screen_width * copies - offset,
            period,
            copies - 1,
            period - offset,
        );
    }
}

/// Unrolling is sound. For a shot with at least one bounce, a shooter and a
/// player on the screen, the unrolled path ends over the player, and it ends
/// in the copy of the screen that lies `bounce_count` walls away on the side
/// to which the shot sets out: the straight line to that point crosses exactly
/// `bounce_count` walls.
pub proof fn lemma_unrolled_path_reaches_player(
    bounce_count: u32,
    heads_right: bool,
    screen_width: int,
    origin_x: int,
    player_x: int,
)
    requires
        bounce_count >= 1,
        screen_width > 0,
        0 <= origin_x <= screen_width,
        0 <= player_x <= screen_width,
    ensures
        folded(
            unrolled(bounce_count, heads_right).end_x(screen_width, origin_x, player_x),
            screen_width,
        ) == player_x,
        heads_right ==> bounce_count * screen_width <= unrolled(bounce_count, heads_right).end_x(
            screen_width,
            origin_x,
            player_x,
        ) <= (bounce_count + 1) * screen_width,
        !heads_right ==> -(bounce_count * screen_width) <= unrolled(
            bounce_count,
            heads_right,
        ).end_x(screen_width, origin_x, player_x) <= -((bounce_count - 1) * screen_width),
{
    let n = bounce_count as int;
    let w = screen_width;
    let path = unrolled(bounce_count, heads_right);
    let end = path.end_x(w, origin_x, player_x);
    let half = n / 2;
    assert(w * (n - 1) + w == n * w && (n + 1) * w == n * w + w && (n - 1) * w == n * w - w)
        by (nonlinear_arith);
    assert(path.mid_x_dists(w) == w * (n - 1));
    if n % 2 == 0 {
        assert(n * w == 2 * w * half && -(n * w) == 2 * w * (-half)) by (nonlinear_arith)
            requires
                n == 2 * half,
        ;
        if heads_right {
            assert(end == 2 * w * half + player_x);
            lemma_folded(w, half, player_x);
        } else {
            assert(end == 2 * w * (-half) + player_x);
            lemma_folded(w, -half, player_x);
        }
    } else {
        assert(n * w + w == 2 * w * (half + 1) && -(n * w - w) == 2 * w * (-half))
            by (nonlinear_arith)
            requires
                n == 2 * half + 1,
        ;
        if heads_right {
            assert(end == 2 * w * (half + 1) - player_x);
            lemma_folded(w, half + 1, player_x);
        } else {
            assert(end == 2 * w * (-half) - player_x);
            lemma_folded(w, -half, player_x);
        }
    }
}

} // verus!
