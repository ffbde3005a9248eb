//! The document board: draggable manual pages and the queued slide-in print
//! animation. Coordinates are whole pixels; timers count milliseconds.

use vstd::prelude::*;

verus! {

/// Upper bound on window, board and manual dimensions, in pixels.
pub const DIM_LIM: i32 = 2_000_000;

/// Bound on coordinates accepted by the drag handler; keeps the pointer
/// deltas and the translated positions inside `i32`.
pub const DRAG_LIM: i32 = 536_870_912;

/// One slide phase of the print animation lasts this long.
pub const MOVE_MS: i32 = 300;

/// One pause between slide phases lasts this long.
pub const PAUSE_MS: i32 = 150;

/// A point lies strictly inside an axis-aligned rectangle; a point on an
/// edge does not count.
pub open spec fn spec_point_aabb(pos: (i32, i32), rect_pos: (i32, i32), rect_size: (
    i32,
    i32,
)) -> bool {
    rect_pos.0 < pos.0 && pos.0 < rect_pos.0 + rect_size.0 && rect_pos.1 < pos.1 && pos.1
        < rect_pos.1 + rect_size.1
}

pub fn point_aabb(pos: (i32, i32), rect_pos: (i32, i32), rect_size: (i32, i32)) -> (r: bool)
    requires
        -0x40000000 <= rect_pos.0 <= 0x40000000,
        -0x40000000 <= rect_pos.1 <= 0x40000000,
        0 <= rect_size.0 <= DIM_LIM,
        0 <= rect_size.1 <= DIM_LIM,
    ensures
        r == spec_point_aabb(pos, rect_pos, rect_size),
{
    rect_pos.0 < pos.0 && pos.0 < rect_pos.0 + rect_size.0 && rect_pos.1 < pos.1 && pos.1
        < rect_pos.1 + rect_size.1
}

/// A manual page: a rectangle with a text body and a background color. The
/// position is the only field that moves (drag, animation).
pub struct Manual {
    pub pos: (i32, i32),
    pub size: (i32, i32),
    pub text: String,
    pub bg_color: (i32, i32, i32),
}

/// A manual's dimensions are sane: non-negative and within the pixel bound.
pub open spec fn manual_wf(m: Manual) -> bool {
    0 <= m.size.0 <= DIM_LIM && 0 <= m.size.1 <= DIM_LIM
}

impl Manual {
    pub fn new(center: (i32, i32), size: (i32, i32), text: String, bg_color: (i32, i32, i32)) -> (r:
        Manual)
        requires
            0 <= size.0 <= DIM_LIM,
            0 <= size.1 <= DIM_LIM,
            -DRAG_LIM <= center.0 <= DRAG_LIM,
            -DRAG_LIM <= center.1 <= DRAG_LIM,
        ensures
            r.pos.0 == center.0 - size.0 / 2,
            r.pos.1 == center.1 - size.1 / 2,
            r.size == size,
            r.text == text,
            r.bg_color == bg_color,
            manual_wf(r),
    {
        let mut manual = Manual { pos: (0, 0), size, text, bg_color };
        manual.set_center(center);
        manual
    }

    /// Place the page so that its middle sits at `pos`.
    pub fn set_center(&mut self, pos: (i32, i32))
        requires
            0 <= old(self).size.0 <= DIM_LIM,
            0 <= old(self).size.1 <= DIM_LIM,
            -DRAG_LIM <= pos.0 <= DRAG_LIM,
            -DRAG_LIM <= pos.1 <= DRAG_LIM,
        ensures
            final(self).pos.0 == pos.0 - old(self).size.0 / 2,
            final(self).pos.1 == pos.1 - old(self).size.1 / 2,
            final(self).size == old(self).size,
            final(self).text == old(self).text,
            final(self).bg_color == old(self).bg_color,
    {
        self.pos = (pos.0 - self.size.0 / 2, pos.1 - self.size.1 / 2);
    }

    /// An independent copy: same page, nothing shared, so drags on the copy
    /// never touch the original.
    pub fn duplicate(&self) -> (r: Manual)
        ensures
            r == *self,
    {
        Manual { pos: self.pos, size: self.size, text: self.text.clone(), bg_color: self.bg_color }
    }
}

/// A page on its way onto the board: it rises for `MOVE_MS`, rests for
/// `PAUSE_MS`, and repeats, until its bottom edge enters the board.
pub struct PrintAnimation {
    pub manual: Manual,
    pub moving_timer: i32,
    pub pause_timer: i32,
    pub is_moving: bool,
}

pub open spec fn anim_wf(a: PrintAnimation) -> bool {
    manual_wf(a.manual) && -2 * DIM_LIM - 2 <= a.manual.pos.1 <= 2 * DIM_LIM && 0
        <= a.moving_timer <= MOVE_MS && 0 <= a.pause_timer <= PAUSE_MS
}

/// The board: a screen region, the placed pages in render order (index 0 on
/// top), and the queue of pages still animating in (front animates first).
pub struct ManualBoard {
    pub pos: (i32, i32),
    pub size: (i32, i32),
    pub manuals: Vec<Manual>,
    pub manual_printing: Vec<PrintAnimation>,
}

/// The index of the topmost placed page containing `p`, or -1 when none
/// does.
pub open spec fn hit_idx(s: Seq<Manual>, p: (i32, i32)) -> int
    decreases s.len(),
{
    if s.len() == 0 {
        -1
    } else if spec_point_aabb(p, s[0].pos, s[0].size) {
        0
    } else {
        let r = hit_idx(s.skip(1), p);
        if r < 0 {
            -1
        } else {
            r + 1
        }
    }
}

pub proof fn lemma_hit_idx(s: Seq<Manual>, p: (i32, i32))
    ensures
        hit_idx(s, p) == -1 || (0 <= hit_idx(s, p) < s.len() && spec_point_aabb(
            p,
            s[hit_idx(s, p)].pos,
            s[hit_idx(s, p)].size,
        )),
        hit_idx(s, p) == -1 ==> forall|j: int|
            0 <= j < s.len() ==> !spec_point_aabb(p, s[j].pos, s[j].size),
        forall|j: int| 0 <= j < hit_idx(s, p) ==> !spec_point_aabb(p, s[j].pos, s[j].size),
    decreases s.len(),
{
    if s.len() == 0 {
    } else if spec_point_aabb(p, s[0].pos, s[0].size) {
    } else {
        lemma_hit_idx(s.skip(1), p);
        assert forall|j: int| 1 <= j < s.len() implies s[j] == s.skip(1)[j - 1] by {}
    }
}

impl ManualBoard {
    /// The board is well formed: its region is sane, and so is every page on
    /// it or on its way onto it.
    pub open spec fn wf(self) -> bool {
        0 <= self.pos.0 <= DIM_LIM && 0 <= self.pos.1 <= DIM_LIM && 0 <= self.size.0 <= DIM_LIM
            && 0 <= self.size.1 <= DIM_LIM && (forall|j: int|
            0 <= j < self.manuals@.len() ==> manual_wf(#[trigger] self.manuals@[j])) && (forall|
            j: int,
        |
            0 <= j < self.manual_printing@.len() ==> anim_wf(
                #[trigger] self.manual_printing@[j],
            ))
    }

    /// The board takes the right half of the window, below the top quarter.
    pub fn new(window_width: i32, window_height: i32) -> (r: ManualBoard)
        requires
            0 <= window_width <= DIM_LIM,
            0 <= window_height <= DIM_LIM,
        ensures
            r.pos.0 == window_width / 2,
            r.pos.1 == window_height / 4,
            r.size.0 == window_width / 2,
            r.size.1 == (3 * window_height) / 4,
            r.manuals@ =~= Seq::<Manual>::empty(),
            r.manual_printing@ =~= Seq::<PrintAnimation>::empty(),
            r.wf(),
    {
        let pos: (i32, i32) = (window_width / 2, window_height / 4);
        let size: (i32, i32) = (window_width / 2, (3 * window_height) / 4);
        ManualBoard { pos, size, manuals: Vec::new(), manual_printing: Vec::new() }
    }

    fn center(&self) -> (r: (i32, i32))
        requires
            self.wf(),
        ensures
            r.0 == self.pos.0 + self.size.0 / 2,
            r.1 == self.pos.1 + self.size.1 / 2,
    {
        (self.pos.0 + self.size.0 / 2, self.pos.1 + self.size.1 / 2)
    }

    /// Queue a page for printing: centered horizontally on the board, just
    /// below the board's bottom edge, with a fresh two-phase timer.
    pub fn print_manual(&mut self, manual: Manual)
        requires
            old(self).wf(),
            manual_wf(manual),
        ensures
            final(self).manual_printing@ == old(self).manual_printing@.push(
                print_anim_of(*old(self), manual),
            ),
            final(self).manuals == old(self).manuals,
            final(self).pos == old(self).pos,
            final(self).size == old(self).size,
            final(self).wf(),
    {
        let center = self.center();
        let placed = Manual {
            pos: (center.0 - manual.size.0 / 2, self.pos.1 + self.size.1),
            size: manual.size,
            text: manual.text,
            bg_color: manual.bg_color,
        };
        let pa = PrintAnimation {
            manual: placed,
            moving_timer: MOVE_MS,
            pause_timer: PAUSE_MS,
            is_moving: true,
        };
        self.manual_printing.push(pa);
    }

    /// Advance the front animation by `dt` milliseconds: promote it onto the
    /// board once its bottom edge is inside, otherwise move or wait.
    pub fn update_printer(&mut self, dt: i32)
        requires
            old(self).wf(),
            dt >= 0,
        ensures
            tick_rel(*old(self), *final(self), dt),
            final(self).wf(),
    {
        if self.manual_printing.len() == 0 {
            return ;
        }
        let board_y_bottom = self.pos.1 + self.size.1;
        let pa = self.manual_printing.remove(0);
        if pa.manual.pos.1 + pa.manual.size.1 < board_y_bottom {
            self.manuals.insert(0, pa.manual);
            proof {
                assert(final(self).manual_printing@ =~= old(self).manual_printing@.skip(1));
            }
            return ;
        }
        let pa2 = if pa.is_moving {
            let t = pa.moving_timer - dt;
            PrintAnimation {
                manual: Manual {
                    pos: (pa.manual.pos.0, pa.manual.pos.1 - 2),
                    size: pa.manual.size,
                    text: pa.manual.text,
                    bg_color: pa.manual.bg_color,
                },
                moving_timer: if t < 0 {
                    MOVE_MS
                } else {
                    t
                },
                pause_timer: pa.pause_timer,
                is_moving: t >= 0,
            }
        } else {
            let t = pa.pause_timer - dt;
            PrintAnimation {
                manual: pa.manual,
                moving_timer: pa.moving_timer,
                pause_timer: if t < 0 {
                    PAUSE_MS
                } else {
                    t
                },
                is_moving: t < 0,
            }
        };
        self.manual_printing.insert(0, pa2);
        proof {
            assert(final(self).manual_printing@ =~= old(self).manual_printing@.update(
                0,
                final(self).manual_printing@[0],
            ));
        }
    }

    /// Drag with the pointer inside the board: bring the topmost page under
    /// the previous pointer position to the front and translate it by the
    /// pointer delta; anything else is a no-op.
    pub fn mouse_drag(&mut self, mouse_pos: (i32, i32), previous_mouse_pos: (i32, i32))
        requires
            old(self).wf(),
            -DRAG_LIM <= previous_mouse_pos.0 <= DRAG_LIM,
            -DRAG_LIM <= previous_mouse_pos.1 <= DRAG_LIM,
            forall|j: int|
                0 <= j < old(self).manuals@.len() ==> -DRAG_LIM <= (
                #[trigger] old(self).manuals@[j]).pos.0 <= DRAG_LIM && -DRAG_LIM <= old(
                    self,
                ).manuals@[j].pos.1 <= DRAG_LIM,
        ensures
            drag_rel(*old(self), *final(self), mouse_pos, previous_mouse_pos),
            final(self).wf(),
    {
        if !point_aabb(mouse_pos, self.pos, self.size) {
            return ;
        }
        let mut i: usize = 0;
        while i < self.manuals.len()
            invariant
                self == old(self),
                old(self).wf(),
                spec_point_aabb(mouse_pos, self.pos, self.size),
                -DRAG_LIM <= previous_mouse_pos.0 <= DRAG_LIM,
                -DRAG_LIM <= previous_mouse_pos.1 <= DRAG_LIM,
                i <= self.manuals@.len(),
                forall|j: int|
                    0 <= j < i ==> !spec_point_aabb(
                        previous_mouse_pos,
                        (#[trigger] self.manuals@[j]).pos,
                        self.manuals@[j].size,
                    ),
                forall|j: int|
                    0 <= j < self.manuals@.len() ==> -DRAG_LIM <= (
                    #[trigger] self.manuals@[j]).pos.0 <= DRAG_LIM && -DRAG_LIM
                        <= self.manuals@[j].pos.1 <= DRAG_LIM,
            decreases self.manuals@.len() - i,
        {
            if point_aabb(previous_mouse_pos, self.manuals[i].pos, self.manuals[i].size) {
                proof {
                    lemma_hit_idx(self.manuals@, previous_mouse_pos);
                    let k = hit_idx(self.manuals@, previous_mouse_pos);
                    if k == -1 {
                        assert(!spec_point_aabb(
                            previous_mouse_pos,
                            self.manuals@[i as int].pos,
                            self.manuals@[i as int].size,
                        ));
                    } else if k < i {
                        assert(!spec_point_aabb(
                            previous_mouse_pos,
                            self.manuals@[k].pos,
                            self.manuals@[k].size,
                        ));
                    } else if k > i {
                        assert(!spec_point_aabb(
                            previous_mouse_pos,
                            self.manuals@[i as int].pos,
                            self.manuals@[i as int].size,
                        ));
                    }
                    assert(k == i);
                }
                let m = self.manuals.remove(i);
                let dx = mouse_pos.0 - previous_mouse_pos.0;
                let dy = mouse_pos.1 - previous_mouse_pos.1;
                let moved = Manual {
                    pos: (m.pos.0 + dx, m.pos.1 + dy),
                    size: m.size,
                    text: m.text,
                    bg_color: m.bg_color,
                };
                self.manuals.insert(0, moved);
                proof {
                    assert(final(self).manuals@ =~= seq![final(self).manuals@[0]] + old(
                        self,
                    ).manuals@.remove(i as int));
                }
                return ;
            }
            i += 1;
        }
        proof {
            lemma_hit_idx(self.manuals@, previous_mouse_pos);
            let k = hit_idx(self.manuals@, previous_mouse_pos);
            if k != -1 {
                assert(!spec_point_aabb(
                    previous_mouse_pos,
                    self.manuals@[k].pos,
                    self.manuals@[k].size,
                ));
            }
        }
    }
}

/// The animation entry that printing `m` on `board` queues: the page sits
/// centered under the board, about to rise.
pub open spec fn print_anim_of(board: ManualBoard, m: Manual) -> PrintAnimation {
    PrintAnimation {
        manual: Manual {
            pos: (
                ((board.pos.0 + board.size.0 / 2) - m.size.0 / 2) as i32,
                (board.pos.1 + board.size.1) as i32,
            ),
            size: m.size,
            text: m.text,
            bg_color: m.bg_color,
        },
        moving_timer: MOVE_MS,
        pause_timer: PAUSE_MS,
        is_moving: true,
    }
}

/// What one animation step does to the board.
pub open spec fn tick_rel(pre: ManualBoard, post: ManualBoard, dt: i32) -> bool {
    if pre.manual_printing@.len() == 0 {
        post == pre
    } else {
        let pa = pre.manual_printing@[0];
        let bottom = pre.pos.1 + pre.size.1;
        post.pos == pre.pos && post.size == pre.size && if pa.manual.pos.1 + pa.manual.size.1
            < bottom {
            post.manuals@ == pre.manuals@.insert(0, pa.manual) && post.manual_printing@
                == pre.manual_printing@.skip(1)
        } else {
            post.manuals@ == pre.manuals@ && post.manual_printing@ == pre.manual_printing@.update(
                0,
                if pa.is_moving {
                    (PrintAnimation {
                        manual: Manual {
                            pos: (pa.manual.pos.0, (pa.manual.pos.1 - 2) as i32),
                            size: pa.manual.size,
                            text: pa.manual.text,
                            bg_color: pa.manual.bg_color,
                        },
                        moving_timer: if pa.moving_timer - dt < 0 {
                            MOVE_MS
                        } else {
                            (pa.moving_timer - dt) as i32
                        },
                        pause_timer: pa.pause_timer,
                        is_moving: pa.moving_timer - dt >= 0,
                    })
                } else {
                    (PrintAnimation {
                        manual: pa.manual,
                        moving_timer: pa.moving_timer,
                        pause_timer: if pa.pause_timer - dt < 0 {
                            PAUSE_MS
                        } else {
                            (pa.pause_timer - dt) as i32
                        },
                        is_moving: pa.pause_timer - dt < 0,
                    })
                },
            )
        }
    }
}

/// What one drag gesture does to the board.
pub open spec fn drag_rel(
    pre: ManualBoard,
    post: ManualBoard,
    mouse_pos: (i32, i32),
    previous_mouse_pos: (i32, i32),
) -> bool {
    if !spec_point_aabb(mouse_pos, pre.pos, pre.size) {
        post == pre
    } else {
        let k = hit_idx(pre.manuals@, previous_mouse_pos);
        if k < 0 {
            post == pre
        } else {
            let m = pre.manuals@[k];
            post.manuals@ == seq![
                (Manual {
                    pos: (
                        (m.pos.0 + mouse_pos.0 - previous_mouse_pos.0) as i32,
                        (m.pos.1 + mouse_pos.1 - previous_mouse_pos.1) as i32,
                    ),
                    size: m.size,
                    text: m.text,
                    bg_color: m.bg_color,
                }),
            ] + pre.manuals@.remove(k) && post.manual_printing@ == pre.manual_printing@ && post.pos
                == pre.pos && post.size == pre.size
        }
    }
}

} // verus!
