//! The interactive session: the grid together with the run/pause flag, the
//! pending-step flag, the repaint-request flag, the exit flag and the cell
//! pixel size. Every user action of the front end is a method here, and the
//! redraw driver's per-wake decision is one as well, so the whole state
//! machine is verified independently of any toolkit.

use vstd::prelude::*;
use crate::grid::Grid;
use crate::grid::HEIGHT;
use crate::grid::WIDTH;
use crate::grid::cell_index;
use crate::grid::grid_wf;
use crate::grid::in_bounds;
use crate::grid::next_gen;
use crate::grid::zerotable;

verus! {

/// Cell pixel size the session starts with; zoom-out never goes below it.
pub const CELL_SIZE: i32 = 4;

/// Mathematical model of a session: the grid as a sequence of cells, the
/// four flags and the cell pixel size.
#[verifier::ext_equal]
pub ghost struct SessionModel {
    pub grid: Seq<bool>,
    pub running: bool,
    pub repaint: bool,
    pub next: bool,
    pub exited: bool,
    pub cell_size: int,
}

/// A well-formed session has a full grid and never shows cells smaller than
/// the initial pixel size.
pub open spec fn session_wf(m: SessionModel) -> bool {
    grid_wf(m.grid) && m.cell_size >= CELL_SIZE as int
}

/// The grid with every cell dead.
pub open spec fn dead_grid() -> Seq<bool> {
    Seq::new(((WIDTH as int) * (HEIGHT as int)) as nat, |k: int| false)
}

/// The state a session starts in: all-dead grid, paused, no pending flags,
/// initial cell pixel size.
pub open spec fn initial_model() -> SessionModel {
    SessionModel {
        grid: dead_grid(),
        running: false,
        repaint: false,
        next: false,
        exited: false,
        cell_size: CELL_SIZE as int,
    }
}

/// Toggling run/pause flips `running` and changes nothing else.
pub open spec fn toggle_model(m: SessionModel) -> SessionModel {
    SessionModel { running: !m.running, ..m }
}

/// Requesting a step while paused marks a pending step and asks for a
/// repaint; while running it only cancels any pending step.
pub open spec fn step_model(m: SessionModel) -> SessionModel {
    if !m.running {
        SessionModel { next: true, repaint: true, ..m }
    } else {
        SessionModel { next: false, ..m }
    }
}

/// Clearing replaces the grid by the all-dead grid and asks for a repaint.
pub open spec fn clear_model(m: SessionModel) -> SessionModel {
    SessionModel { grid: dead_grid(), repaint: true, ..m }
}

/// Zooming in grows the cell pixel size by one and asks for a repaint.
pub open spec fn zoom_in_model(m: SessionModel) -> SessionModel {
    SessionModel { cell_size: m.cell_size + 1, repaint: true, ..m }
}

/// Zooming out shrinks the cell pixel size by one, but never below the
/// initial size, and asks for a repaint.
pub open spec fn zoom_out_model(m: SessionModel) -> SessionModel {
    SessionModel {
        cell_size: if m.cell_size > CELL_SIZE as int {
            m.cell_size - 1
        } else {
            m.cell_size
        },
        repaint: true,
        ..m
    }
}

/// Painting writes one cell (a no-op outside the grid) and asks for a
/// repaint.
pub open spec fn paint_model(m: SessionModel, x: int, y: int, alive: bool) -> SessionModel {
    SessionModel {
        grid: if in_bounds(x, y) {
            m.grid.update(cell_index(x, y), alive)
        } else {
            m.grid
        },
        repaint: true,
        ..m
    }
}

/// A render tick advances the grid one generation when running; when paused
/// with a pending step it advances once and consumes the pending step;
/// otherwise it leaves the session unchanged.
pub open spec fn render_tick_model(m: SessionModel) -> SessionModel {
    if m.running {
        SessionModel { grid: next_gen(m.grid), ..m }
    } else if m.next {
        SessionModel { grid: next_gen(m.grid), next: false, ..m }
    } else {
        m
    }
}

/// What the redraw driver does on one wake.
#[derive(Clone, Copy, PartialEq, Eq, Structural, Debug)]
pub enum DriverAction {
    /// The session has exited: stop the driver loop.
    Stop,
    /// Ask the toolkit to redraw (the render tick then also advances the
    /// simulation when it is running).
    Redraw,
    /// Nothing to do this wake.
    Idle,
}

/// One wake of the redraw driver: stop when exited; redraw every wake while
/// running; redraw once and clear the flag when a repaint was requested;
/// otherwise do nothing.
pub open spec fn driver_tick_model(m: SessionModel) -> (SessionModel, DriverAction) {
    if m.exited {
        (m, DriverAction::Stop)
    } else if m.running {
        (m, DriverAction::Redraw)
    } else if m.repaint {
        (SessionModel { repaint: false, ..m }, DriverAction::Redraw)
    } else {
        (m, DriverAction::Idle)
    }
}

/// The session state an interactive front end drives: the grid plus the
/// run/pause, repaint-request, pending-step and exit flags and the cell
/// pixel size.
pub struct Session {
    pub grid: Grid,
    pub running: bool,
    pub repaint: bool,
    pub next: bool,
    pub exited: bool,
    pub cell_size: i32,
}

impl View for Session {
    type V = SessionModel;

    open spec fn view(&self) -> SessionModel {
        SessionModel {
            grid: self.grid@,
            running: self.running,
            repaint: self.repaint,
            next: self.next,
            exited: self.exited,
            cell_size: self.cell_size as int,
        }
    }
}

impl Session {
    /// The session invariant: full grid, cell pixel size at or above the
    /// initial constant.
    pub open spec fn wf(&self) -> bool {
        session_wf(self@)
    }

    /// Creates a paused session over an all-dead grid.
    pub fn new() -> (s: Session)
        ensures
            s.wf(),
            s@ == initial_model(),
    {
        let s = Session {
            grid: zerotable(),
            running: false,
            repaint: false,
            next: false,
            exited: false,
            cell_size: CELL_SIZE,
        };
        proof {
            assert(s@.grid =~= dead_grid());
            assert(s@ =~= initial_model());
        }
        s
    }

    /// Flips between running and paused.
    pub fn toggle_run(&mut self)
        requires
            old(self).wf(),
        ensures
            final(self).wf(),
            final(self)@ == toggle_model(old(self)@),
    {
        self.running = !self.running;
    }

    /// The label the run/pause control shows for the current state.
    pub fn run_label(&self) -> (r: &'static str)
        ensures
            self.running ==> r@ == "Pause"@,
            !self.running ==> r@ == "Start"@,
    {
        if self.running {
            "Pause"
        } else {
            "Start"
        }
    }

    /// Requests a single-generation step: pending only while paused; while
    /// running it cancels any pending step instead.
    pub fn step(&mut self)
        requires
            old(self).wf(),
        ensures
            final(self).wf(),
            final(self)@ == step_model(old(self)@),
    {
        if !self.running {
            self.next = true;
            self.repaint = true;
        } else {
            self.next = false;
        }
    }

    /// Resets the grid to all-dead and requests a repaint.
    pub fn clear(&mut self)
        requires
            old(self).wf(),
        ensures
            final(self).wf(),
            final(self)@ == clear_model(old(self)@),
    {
        self.grid.fill(false);
        self.repaint = true;
        proof {
            assert(self@.grid =~= dead_grid());
            assert(self@ =~= clear_model(old(self)@));
        }
    }

    /// Grows the cell pixel size by one and requests a repaint.
    pub fn zoom_in(&mut self)
        requires
            old(self).wf(),
            old(self).cell_size < i32::MAX,
        ensures
            final(self).wf(),
            final(self)@ == zoom_in_model(old(self)@),
    {
        self.cell_size = self.cell_size + 1;
        self.repaint = true;
    }

    /// Shrinks the cell pixel size by one, never below the initial size, and
    /// requests a repaint.
    pub fn zoom_out(&mut self)
        requires
            old(self).wf(),
        ensures
            final(self).wf(),
            final(self)@ == zoom_out_model(old(self)@),
            final(self).cell_size >= CELL_SIZE,
    {
        if self.cell_size > CELL_SIZE {
            self.cell_size = self.cell_size - 1;
        }
        self.repaint = true;
    }

    /// Paints one cell alive or dead; coordinates outside the grid are
    /// silently ignored. Requests a repaint.
    pub fn paint(&mut self, x: i32, y: i32, alive: bool)
        requires
            old(self).wf(),
        ensures
            final(self).wf(),
            final(self)@ == paint_model(old(self)@, x as int, y as int, alive),
    {
        self.grid.set(x, y, alive);
        self.repaint = true;
    }

    /// Replaces the grid by a fresh uniformly random pattern and requests a
    /// repaint. The flags and the cell pixel size are untouched.
    pub fn randomize(&mut self)
        requires
            old(self).wf(),
        ensures
            final(self).wf(),
            final(self).repaint,
            final(self).running == old(self).running,
            final(self).next == old(self).next,
            final(self).exited == old(self).exited,
            final(self).cell_size == old(self).cell_size,
    {
        let t = crate::grid::randomtable();
        self.grid.copy_from(&t);
        self.repaint = true;
    }

    /// The render callback's state change: advance one generation when
    /// running, or consume a pending step, or leave everything unchanged.
    /// The caller renders the grid afterwards.
    pub fn render_tick(&mut self)
        requires
            old(self).wf(),
        ensures
            final(self).wf(),
            final(self)@ == render_tick_model(old(self)@),
    {
        if self.running {
            self.grid.update();
        } else if self.next {
            self.grid.update();
            self.next = false;
        }
    }

    /// One wake of the redraw driver: reports whether the front end should
    /// stop the driver loop, redraw, or do nothing, and consumes a pending
    /// repaint request.
    pub fn driver_tick(&mut self) -> (a: DriverAction)
        requires
            old(self).wf(),
        ensures
            final(self).wf(),
            final(self)@ == driver_tick_model(old(self)@).0,
            a == driver_tick_model(old(self)@).1,
    {
        if self.exited {
            DriverAction::Stop
        } else if self.running {
            DriverAction::Redraw
        } else if self.repaint {
            self.repaint = false;
            DriverAction::Redraw
        } else {
            DriverAction::Idle
        }
    }

    /// Marks the session as exited; the redraw driver stops on its next
    /// wake.
    pub fn exit(&mut self)
        requires
            old(self).wf(),
        ensures
            final(self).wf(),
            final(self)@ == (SessionModel { exited: true, ..old(self)@ }),
    {
        self.exited = true;
    }
}

/// The cell pixel size after `n` zoom-out requests.
pub open spec fn zoom_out_n(m: SessionModel, n: nat) -> SessionModel
    decreases n,
{
    if n == 0 {
        m
    } else {
        zoom_out_model(zoom_out_n(m, (n - 1) as nat))
    }
}

/// Law: zoom-out never takes the cell pixel size below the initial
/// constant, however often it is invoked.
pub proof fn lemma_zoom_out_never_below(m: SessionModel, n: nat)
    requires
        m.cell_size >= CELL_SIZE as int,
    ensures
        zoom_out_n(m, n).cell_size >= CELL_SIZE as int,
        zoom_out_n(m, n).cell_size <= m.cell_size,
    decreases n,
{
    if n > 0 {
        lemma_zoom_out_never_below(m, (n - 1) as nat);
    }
}

/// Law: a step requested while paused makes the next render tick advance
/// exactly one generation and consume the pending step; the render tick
/// after that leaves the grid unchanged (no runaway advancement).
pub proof fn lemma_step_while_paused(m: SessionModel)
    requires
        !m.running,
    ensures
        render_tick_model(step_model(m)).grid == next_gen(m.grid),
        !render_tick_model(step_model(m)).next,
        !render_tick_model(step_model(m)).running,
        render_tick_model(render_tick_model(step_model(m))) == render_tick_model(step_model(m)),
{
}

/// Law: a step requested while running only clears the pending-step flag;
/// it queues no extra generation advance.
pub proof fn lemma_step_while_running(m: SessionModel)
    requires
        m.running,
    ensures
        step_model(m) == (SessionModel { next: false, ..m }),
        render_tick_model(step_model(m)).grid == render_tick_model(m).grid,
{
}

} // verus!
