//! Multiple displays with selection and cycling.
use vstd::prelude::*;
use crate::text::{decimal, decimal_string, push_str, to_string};

verus! {

/// Monitor information.
#[derive(Debug, Clone)]
pub struct MonitorInfo {
    pub index: u32,
    pub name: String,
    pub width: u32,
    pub height: u32,
    pub is_primary: bool,
}

/// How a monitor is shown: `* ` before and ` [Primary]` after for the
/// primary one, then name in brackets and size.
pub open spec fn monitor_text(m: MonitorInfo) -> Seq<char> {
    (if m.is_primary {
        "* "@
    } else {
        ""@
    }) + " ("@ + m.name@ + ") "@ + decimal(m.width as nat) + "x"@ + decimal(m.height as nat) + (if m.is_primary {
        " [Primary]"@
    } else {
        ""@
    })
}

impl MonitorInfo {
    /// The monitor as shown to the user.
    pub fn label(&self) -> (r: String)
        ensures
            r@ == monitor_text(*self),
    {
        let mut r = if self.is_primary { to_string("* ") } else { String::new() };
        push_str(&mut r, " (");
        push_str(&mut r, self.name.as_str());
        push_str(&mut r, ") ");
        let w = decimal_string(self.width as u64);
        push_str(&mut r, w.as_str());
        push_str(&mut r, "x");
        let h = decimal_string(self.height as u64);
        push_str(&mut r, h.as_str());
        if self.is_primary {
            push_str(&mut r, " [Primary]");
        }
        proof {
            reveal_strlit("");
        }
        assert(r@ =~= monitor_text(*self));
        r
    }
}

/// Multi-monitor manager.
#[derive(Debug)]
pub struct MultiMonitorManager {
    monitors: Vec<MonitorInfo>,
    selected_index: u32,
}

/// Index of the first primary monitor in `ms`, if any.
pub open spec fn first_primary(ms: Seq<MonitorInfo>) -> Option<int> {
    if exists|i: int| 0 <= i < ms.len() && ms[i].is_primary {
        Some(choose|i: int| 0 <= i < ms.len() && ms[i].is_primary && forall|j: int| 0 <= j < i ==> !ms[j].is_primary)
    } else {
        None
    }
}

/// Error text for an out-of-range monitor index.
pub open spec fn invalid_index_message(index: u32) -> Seq<char> {
    "Invalid monitor index: "@ + decimal(index as nat)
}

impl MultiMonitorManager {
    pub closed spec fn spec_monitors(&self) -> Seq<MonitorInfo> {
        self.monitors@
    }

    pub closed spec fn selected_index(&self) -> u32 {
        self.selected_index
    }

    /// The selected index points at a monitor whenever there is one, and the
    /// count fits the 32-bit index.
    pub open spec fn wf(&self) -> bool {
        &&& self.spec_monitors().len() <= u32::MAX
        &&& self.spec_monitors().len() == 0 ==> self.selected_index() == 0
        &&& self.spec_monitors().len() > 0 ==> self.selected_index() < self.spec_monitors().len()
    }

    pub fn new() -> (m: Self)
        ensures
            m.wf(),
            m.spec_monitors() == Seq::<MonitorInfo>::empty(),
            m.selected_index() == 0,
    {
        MultiMonitorManager { monitors: Vec::new(), selected_index: 0 }
    }

    pub fn add_monitor(&mut self, info: MonitorInfo)
        requires
            old(self).wf(),
            old(self).spec_monitors().len() < u32::MAX,
        ensures
            final(self).wf(),
            final(self).spec_monitors() == old(self).spec_monitors().push(info),
            final(self).selected_index() == old(self).selected_index(),
    {
        self.monitors.push(info);
    }

    pub fn monitors(&self) -> (r: &[MonitorInfo])
        ensures
            r@ == self.spec_monitors(),
    {
        self.monitors.as_slice()
    }

    /// The selected monitor, if the index points at one.
    pub fn selected(&self) -> (r: Option<&MonitorInfo>)
        ensures
            self.selected_index() < self.spec_monitors().len() ==> r == Some(
                &self.spec_monitors()[self.selected_index() as int],
            ),
            self.selected_index() >= self.spec_monitors().len() ==> r is None,
    {
        let i = self.selected_index as usize;
        if i < self.monitors.len() {
            Some(&self.monitors[i])
        } else {
            None
        }
    }

    /// Selects the monitor at `index`; refused when there is no such monitor.
    pub fn select(&mut self, index: u32) -> (r: Result<(), String>)
        requires
            old(self).wf(),
        ensures
            final(self).wf(),
            final(self).spec_monitors() == old(self).spec_monitors(),
            r is Ok <==> index < old(self).spec_monitors().len(),
            r is Ok ==> final(self).selected_index() == index,
            r matches Err(msg) ==> msg@ == invalid_index_message(index) && final(self).selected_index()
                == old(self).selected_index(),
    {
        if index as usize >= self.monitors.len() {
            let mut msg = to_string("Invalid monitor index: ");
            let digits = decimal_string(index as u64);
            push_str(&mut msg, digits.as_str());
            return Err(msg);
        }
        self.selected_index = index;
        Ok(())
    }

    /// Selects the first primary monitor, or else the first monitor.
    pub fn select_primary(&mut self) -> (r: Result<(), String>)
        requires
            old(self).wf(),
        ensures
            final(self).wf(),
            final(self).spec_monitors() == old(self).spec_monitors(),
            r is Ok <==> old(self).spec_monitors().len() > 0,
            r is Ok ==> final(self).selected_index() == match first_primary(old(self).spec_monitors()) {
                Some(i) => i,
                None => 0,
            },
            r matches Err(msg) ==> msg@ == invalid_index_message(0),
    {
        let n = self.monitors.len();
        let mut i: usize = 0;
        while i < n
            invariant
                n == self.monitors@.len(),
                i <= n,
                self.wf(),
                self.spec_monitors() == old(self).spec_monitors(),
                forall|j: int| 0 <= j < i ==> !self.monitors@[j].is_primary,
            decreases n - i,
        {
            if self.monitors[i].is_primary {
                proof {
                    let ms = self.monitors@;
                    assert(exists|k: int| 0 <= k < ms.len() && ms[k].is_primary) by {
                        assert(ms[i as int].is_primary);
                    }
                    let c = choose|k: int| 0 <= k < ms.len() && ms[k].is_primary && forall|j: int| 0 <= j < k ==> !ms[j].is_primary;
                    assert(0 <= c < ms.len() && ms[c].is_primary && forall|j: int| 0 <= j < c ==> !ms[j].is_primary) by {
                        assert(0 <= i < ms.len() && ms[i as int].is_primary && forall|j: int| 0 <= j < i ==> !ms[j].is_primary);
                    }
                    if c < i {
                    } else if c > i {
                        assert(!ms[i as int].is_primary);
                    }
                }
                return self.select(i as u32);
            }
            i = i + 1;
        }
        self.select(0)
    }

    /// Moves the selection to the next monitor, wrapping around.
    pub fn next(&mut self)
        requires
            old(self).wf(),
        ensures
            final(self).wf(),
            final(self).spec_monitors() == old(self).spec_monitors(),
            old(self).spec_monitors().len() == 0 ==> final(self).selected_index() == old(self).selected_index(),
            old(self).spec_monitors().len() > 0 ==> final(self).selected_index() == (old(self).selected_index()
                + 1) % (old(self).spec_monitors().len() as int),
    {
        if self.monitors.len() == 0 {
            return;
        }
        let n = self.monitors.len() as u32;
        self.selected_index = (self.selected_index + 1) % n;
    }

    pub fn count(&self) -> (r: usize)
        ensures
            r == self.spec_monitors().len(),
    {
        self.monitors.len()
    }
}

impl Default for MultiMonitorManager {
    fn default() -> (m: Self)
        ensures
            m.wf(),
            m.spec_monitors() == Seq::<MonitorInfo>::empty(),
            m.selected_index() == 0,
    {
        Self::new()
    }
}

/// The available monitors: a single 1920x1080 primary display.
pub fn scan_monitors() -> (r: Vec<MonitorInfo>)
    ensures
        r@.len() == 1,
        r@[0].index == 0 && r@[0].width == 1920 && r@[0].height == 1080 && r@[0].is_primary,
        r@[0].name@ == "Primary Display"@,
{
    let mut v: Vec<MonitorInfo> = Vec::new();
    v.push(MonitorInfo { index: 0, name: to_string("Primary Display"), width: 1920, height: 1080, is_primary: true });
    v
}

} // verus!
