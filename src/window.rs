//! Window Directory scan, Window Locator and the choice of window-state
//! changes.
use vstd::prelude::*;

verus! {

/// An opaque reference to a top-level window, as the window manager's handle
/// value.
#[derive(Debug, Clone, Copy, PartialEq, Eq, Structural)]
pub struct WindowHandle {
    pub raw: usize,
}

/// One top-level window met during enumeration, with the id of the process
/// that owns it.
#[derive(Debug, Clone, Copy, PartialEq, Eq, Structural)]
pub struct WindowEntry {
    pub handle: WindowHandle,
    pub owner: u32,
}

/// The first window of `entries` owned by `process_id`.
pub open spec fn first_owned(entries: Seq<WindowEntry>, process_id: u32) -> Option<WindowHandle>
    decreases entries.len(),
{
    if entries.len() == 0 {
        None
    } else if entries[0].owner == process_id {
        Some(entries[0].handle)
    } else {
        first_owned(entries.drop_first(), process_id)
    }
}

/// State of one enumeration of the Window Directory looking for a window
/// of `target`. The enumeration is fed one window at a time and is told to
/// stop as soon as a window matched.
#[derive(Debug, Clone, Copy, PartialEq, Eq, Structural)]
pub struct WindowScan {
    pub target: u32,
    pub found: Option<WindowHandle>,
}

impl WindowScan {
    pub fn new(target: u32) -> (r: WindowScan)
        ensures
            r.target == target,
            r.found is None,
    {
        WindowScan { target, found: None }
    }

    /// Takes the next enumerated window; returns whether the enumeration
    /// should go on. Once a window matched, later ones are ignored.
    pub fn offer(&mut self, entry: WindowEntry) -> (go_on: bool)
        ensures
            final(self).target == old(self).target,
            old(self).found is Some ==> !go_on && final(self).found == old(self).found,
            old(self).found is None ==> {
                &&& go_on == (entry.owner != old(self).target)
                &&& final(self).found == if entry.owner == old(self).target {
                    Some(entry.handle)
                } else {
                    None
                }
            },
    {
        if self.found.is_some() {
            return false;
        }
        if entry.owner == self.target {
            self.found = Some(entry.handle);
            false
        } else {
            true
        }
    }
}

/// The first window of one enumeration that `process_id` owns; the
/// enumeration stops at it. `None` when there is none, also when there are no
/// windows at all.
pub fn get_window_from_process_id(entries: &Vec<WindowEntry>, process_id: u32) -> (r: Option<WindowHandle>)
    ensures
        r == first_owned(entries@, process_id),
{
    let mut scan = WindowScan::new(process_id);
    let mut i: usize = 0;
    assert(entries@.subrange(0, entries.len() as int) =~= entries@);
    while i < entries.len()
        invariant
            i <= entries.len(),
            scan.target == process_id,
            scan.found is None,
            first_owned(entries@, process_id) == first_owned(entries@.subrange(i as int, entries.len() as int), process_id),
        decreases entries.len() - i,
    {
        let ghost rest = entries@.subrange(i as int, entries.len() as int);
        assert(rest.drop_first() =~= entries@.subrange(i + 1, entries.len() as int));
        if !scan.offer(entries[i]) {
            return scan.found;
        }
        i = i + 1;
    }
    assert(entries@.subrange(i as int, entries.len() as int).len() == 0);
    None
}

/// Bookkeeping of the Window Locator's bounded retry: at most `attempts`
/// lookups, each failed one followed by a pause of one interval.
#[derive(Debug, Clone, Copy, PartialEq, Eq, Structural)]
pub struct WindowSearch {
    pub attempts: u32,
    pub made: u32,
}

impl WindowSearch {
    pub open spec fn wf(self) -> bool {
        self.made <= self.attempts
    }

    pub fn new(attempts: u32) -> (r: WindowSearch)
        ensures
            r == (WindowSearch { attempts, made: 0 }),
            r.wf(),
    {
        WindowSearch { attempts, made: 0 }
    }

    /// Says whether another lookup may be made, and counts it when so.
    pub fn begin_attempt(&mut self) -> (go: bool)
        requires
            old(self).wf(),
        ensures
            go == (old(self).made < old(self).attempts),
            final(self).attempts == old(self).attempts,
            final(self).made == if go { old(self).made + 1 } else { old(self).made as int },
            final(self).wf(),
    {
        if self.made < self.attempts {
            self.made = self.made + 1;
            true
        } else {
            false
        }
    }
}

/// A search from state `s` whose successive lookups give `lookups`: how many
/// lookups it makes, how many pauses it takes, and what it reports.
pub open spec fn window_run(s: WindowSearch, lookups: Seq<Option<WindowHandle>>) -> (nat, nat, Option<WindowHandle>)
    decreases lookups.len(),
{
    if s.made >= s.attempts || lookups.len() == 0 {
        (0, 0, None)
    } else {
        match lookups[0] {
            Some(h) => (1, 0, Some(h)),
            None => {
                let next = WindowSearch { attempts: s.attempts, made: (s.made + 1) as u32 };
                let (n, p, r) = window_run(next, lookups.drop_first());
                (n + 1, p + 1, r)
            },
        }
    }
}

proof fn lemma_window_run_absent(s: WindowSearch, lookups: Seq<Option<WindowHandle>>)
    requires
        s.wf(),
        lookups.len() >= s.attempts - s.made,
        forall|i: int| 0 <= i < s.attempts - s.made ==> lookups[i] is None,
    ensures
        window_run(s, lookups) == ((s.attempts - s.made) as nat, (s.attempts - s.made) as nat, None::<WindowHandle>),
    decreases s.attempts - s.made,
{
    if s.made < s.attempts {
        let next = WindowSearch { attempts: s.attempts, made: (s.made + 1) as u32 };
        let rest = lookups.drop_first();
        assert(lookups[0] is None);
        assert forall|i: int| 0 <= i < next.attempts - next.made implies rest[i] is None by {
            assert(rest[i] == lookups[i + 1]);
        }
        lemma_window_run_absent(next, rest);
    }
}

/// A process that owns no window in any enumeration is reported absent only
/// after all `attempts` lookups, having paused once after each, so that the
/// search lasts `attempts` intervals.
pub proof fn lemma_absent_after_all_attempts(attempts: u32, process_id: u32, enumerations: Seq<Seq<WindowEntry>>)
    requires
        enumerations.len() >= attempts,
        forall|i: int| 0 <= i < attempts ==> first_owned(#[trigger] enumerations[i], process_id) is None,
    ensures
        window_run(
            WindowSearch { attempts, made: 0 },
            enumerations.map_values(|e: Seq<WindowEntry>| first_owned(e, process_id)),
        ) == (attempts as nat, attempts as nat, None::<WindowHandle>),
{
    let lookups = enumerations.map_values(|e: Seq<WindowEntry>| first_owned(e, process_id));
    assert forall|i: int| 0 <= i < attempts implies lookups[i] is None by {
        assert(first_owned(enumerations[i], process_id) is None);
    }
    lemma_window_run_absent(WindowSearch { attempts, made: 0 }, lookups);
}

/// How a window is to be shown.
#[derive(Debug, Clone, Copy, PartialEq, Eq, Structural)]
pub enum ShowMode {
    Maximize,
    Minimize,
}

/// A change of window state to apply.
#[derive(Debug, Clone, Copy, PartialEq, Eq, Structural)]
pub struct ShowRequest {
    pub window: WindowHandle,
    pub mode: ShowMode,
}

/// The window of the running process, found among `entries` by its own id
/// `own_pid`.
pub fn get_current_process_window(entries: &Vec<WindowEntry>, own_pid: u32) -> (r: Option<WindowHandle>)
    ensures
        r == first_owned(entries@, own_pid),
{
    get_window_from_process_id(entries, own_pid)
}

fn show_current(entries: &Vec<WindowEntry>, own_pid: u32, mode: ShowMode) -> (r: Option<ShowRequest>)
    ensures
        r == match first_owned(entries@, own_pid) {
            Some(w) => Some(ShowRequest { window: w, mode }),
            None => None::<ShowRequest>,
        },
{
    match get_current_process_window(entries, own_pid) {
        Some(w) => Some(ShowRequest { window: w, mode }),
        None => None,
    }
}

/// The request that maximizes the running process's window, or `None` when
/// it has none, which the caller reports as a warning.
pub fn maximize_current_process_window(entries: &Vec<WindowEntry>, own_pid: u32) -> (r: Option<ShowRequest>)
    ensures
        r == match first_owned(entries@, own_pid) {
            Some(w) => Some(ShowRequest { window: w, mode: ShowMode::Maximize }),
            None => None::<ShowRequest>,
        },
{
    show_current(entries, own_pid, ShowMode::Maximize)
}

/// The request that minimizes the running process's window, or `None` when
/// it has none, which the caller reports as a warning.
pub fn minimize_current_process_window(entries: &Vec<WindowEntry>, own_pid: u32) -> (r: Option<ShowRequest>)
    ensures
        r == match first_owned(entries@, own_pid) {
            Some(w) => Some(ShowRequest { window: w, mode: ShowMode::Minimize }),
            None => None::<ShowRequest>,
        },
{
    show_current(entries, own_pid, ShowMode::Minimize)
}

} // verus!
