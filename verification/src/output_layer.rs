//! The output facade: one active backend among the registered ones, an
//! enable switch, and a send latch driven by the send filter.
//!
//! The layer decides; it does not hold the backends. Each operation returns
//! the backend calls to make, in order, as `BackendAction`s naming a backend by
//! its registration index. Operations whose calls can fail come in two
//! halves: `begin_*` returns the calls that may fail, and `finish_*`, made
//! only once those calls succeeded, completes the change of state.
use vstd::prelude::*;
use crate::config::{OutputBackendKind, OutputSendFilterConfig};
use crate::errors::AppError;

verus! {

/// A call to make on one backend.
#[derive(Debug, Clone, Copy)]
pub enum BackendCommand {
    /// `set_enabled` with the given flag.
    SetEnabled(bool),
    /// `apply` with the frame being sent.
    ApplyFrame,
    /// `apply` with the neutral (default) frame.
    ApplyNeutral,
}

/// A call on the backend registered at `index`.
#[derive(Debug, Clone, Copy)]
pub struct BackendAction {
    pub index: usize,
    pub command: BackendCommand,
}

/// The abstract state of the layer.
pub struct LayerView {
    pub enabled: bool,
    pub active: OutputBackendKind,
    pub kinds: Seq<OutputBackendKind>,
    pub gate_open: bool,
}

pub struct OutputBackendLayer {
    enabled: bool,
    active_backend: OutputBackendKind,
    kinds: Vec<OutputBackendKind>,
    send_filter: OutputSendFilterConfig,
    send_gate_open: bool,
}

/// `i` is the first registration index of `k`.
pub open spec fn is_first_index(kinds: Seq<OutputBackendKind>, k: OutputBackendKind, i: int) -> bool {
    &&& 0 <= i < kinds.len()
    &&& kinds[i] == k
    &&& forall|j: int| 0 <= j < i ==> kinds[j] != k
}

/// The first registration index of `k` (meaningful when `k` is registered).
pub open spec fn first_index(kinds: Seq<OutputBackendKind>, k: OutputBackendKind) -> int {
    choose|i: int| is_first_index(kinds, k, i)
}

/// One `set_enabled` call per registered backend, in order: enabled exactly
/// for the entries of the active kind, and only while the layer is enabled.
pub open spec fn sync_actions(
    kinds: Seq<OutputBackendKind>,
    enabled: bool,
    active: OutputBackendKind,
) -> Seq<BackendAction> {
    Seq::new(
        kinds.len(),
        |i: int|
            BackendAction {
                index: i as usize,
                command: BackendCommand::SetEnabled(enabled && kinds[i] == active),
            },
    )
}

/// Deactivating a backend: disable it, then send it the neutral frame.
pub open spec fn deactivate_actions(index: int) -> Seq<BackendAction> {
    seq![
        BackendAction { index: index as usize, command: BackendCommand::SetEnabled(false) },
        BackendAction { index: index as usize, command: BackendCommand::ApplyNeutral },
    ]
}

/// The debug name of a backend kind.
pub open spec fn kind_name(kind: OutputBackendKind) -> Seq<char> {
    match kind {
        OutputBackendKind::Ets2 => "Ets2"@,
        OutputBackendKind::Mouse => "Mouse"@,
        OutputBackendKind::Keyboard => "Keyboard"@,
        OutputBackendKind::Touch => "Touch"@,
    }
}

fn kind_name_str(kind: OutputBackendKind) -> (s: &'static str)
    ensures
        s@ == kind_name(kind),
{
    match kind {
        OutputBackendKind::Ets2 => "Ets2",
        OutputBackendKind::Mouse => "Mouse",
        OutputBackendKind::Keyboard => "Keyboard",
        OutputBackendKind::Touch => "Touch",
    }
}

/// The error for a backend kind that is not registered.
pub open spec fn not_registered_message(kind: OutputBackendKind) -> Seq<char> {
    "output backend is not registered: "@ + kind_name(kind)
}

/// The error for an empty registration.
pub open spec fn empty_registration_message() -> Seq<char> {
    "output backend layer requires at least one backend"@
}

fn make_sync_actions(
    kinds: &Vec<OutputBackendKind>,
    enabled: bool,
    active: OutputBackendKind,
) -> (actions: Vec<BackendAction>)
    ensures
        actions@ == sync_actions(kinds@, enabled, active),
{
    let mut actions: Vec<BackendAction> = Vec::new();
    let mut i: usize = 0;
    while i < kinds.len()
        invariant
            i <= kinds@.len(),
            actions@ =~= sync_actions(kinds@, enabled, active).take(i as int),
        decreases kinds.len() - i,
    {
        let on = enabled && kinds[i] == active;
        actions.push(BackendAction { index: i, command: BackendCommand::SetEnabled(on) });
        i = i + 1;
    }
    assert(actions@ =~= sync_actions(kinds@, enabled, active));
    actions
}

fn make_deactivate_actions(index: usize) -> (actions: Vec<BackendAction>)
    ensures
        actions@ == deactivate_actions(index as int),
{
    let mut actions: Vec<BackendAction> = Vec::new();
    actions.push(BackendAction { index, command: BackendCommand::SetEnabled(false) });
    actions.push(BackendAction { index, command: BackendCommand::ApplyNeutral });
    assert(actions@ =~= deactivate_actions(index as int));
    actions
}

fn find_kind(kinds: &Vec<OutputBackendKind>, kind: OutputBackendKind) -> (r: Option<usize>)
    ensures
        match r {
            Some(i) => is_first_index(kinds@, kind, i as int),
            None => !kinds@.contains(kind),
        },
{
    let mut i: usize = 0;
    while i < kinds.len()
        invariant
            i <= kinds@.len(),
            forall|j: int| 0 <= j < i ==> kinds@[j] != kind,
        decreases kinds.len() - i,
    {
        if kinds[i] == kind {
            return Some(i);
        }
        i = i + 1;
    }
    None
}

/// The first index is unique and found by `first_index`.
pub proof fn lemma_first_index(kinds: Seq<OutputBackendKind>, k: OutputBackendKind, i: int)
    requires
        is_first_index(kinds, k, i),
    ensures
        first_index(kinds, k) == i,
{
    let j = first_index(kinds, k);
    assert(is_first_index(kinds, k, j));
    if j < i {
        assert(kinds[j] != k);
    } else if i < j {
        assert(kinds[i] != k);
    }
}

/// A registered kind has a first index.
pub proof fn lemma_registered_has_first_index(kinds: Seq<OutputBackendKind>, k: OutputBackendKind)
    requires
        kinds.contains(k),
    ensures
        is_first_index(kinds, k, first_index(kinds, k)),
    decreases kinds.len(),
{
    if kinds[0] == k {
        assert(is_first_index(kinds, k, 0));
    } else {
        let rest = kinds.drop_first();
        let w = choose|w: int| 0 <= w < kinds.len() && kinds[w] == k;
        assert(rest[w - 1] == k);
        lemma_registered_has_first_index(rest, k);
        let r = first_index(rest, k);
        assert forall|j: int| 0 <= j < r + 1 implies kinds[j] != k by {
            if j > 0 {
                assert(kinds[j] == rest[j - 1]);
            }
        }
        assert(is_first_index(kinds, k, r + 1));
    }
}

impl View for OutputBackendLayer {
    type V = LayerView;

    closed spec fn view(&self) -> LayerView {
        LayerView {
            enabled: self.enabled,
            active: self.active_backend,
            kinds: self.kinds@,
            gate_open: self.send_gate_open,
        }
    }
}

impl OutputBackendLayer {
    #[verifier::type_invariant]
    spec fn wf(&self) -> bool {
        &&& self.kinds@.len() > 0
        &&& self.kinds@.contains(self.active_backend)
    }

    /// Builds the layer over the backends registered as `kinds` (in order).
    /// The requested backend becomes active when registered, else the first
    /// one. The returned calls bring each backend's enable flag in line.
    pub fn with_backends(
        requested_backend: OutputBackendKind,
        send_filter: OutputSendFilterConfig,
        kinds: Vec<OutputBackendKind>,
    ) -> (r: Result<(OutputBackendLayer, Vec<BackendAction>), AppError>)
        ensures
            kinds@.len() == 0 <==> r is Err,
            r matches Err(e) ==> e matches AppError::InvalidState(m) && m@
                == empty_registration_message(),
            r matches Ok((layer, actions)) ==> {
                let active = if kinds@.contains(requested_backend) {
                    requested_backend
                } else {
                    kinds@[0]
                };
                &&& layer@ == LayerView {
                    enabled: true,
                    active,
                    kinds: kinds@,
                    gate_open: false,
                }
                &&& layer.spec_send_filter() == send_filter
                &&& actions@ == sync_actions(kinds@, true, active)
            },
    {
        if kinds.len() == 0 {
            return Err(
                AppError::InvalidState(
                    String::from_str("output backend layer requires at least one backend"),
                ),
            );
        }
        let active_backend = match find_kind(&kinds, requested_backend) {
            Some(_) => requested_backend,
            None => kinds[0],
        };
        let actions = make_sync_actions(&kinds, true, active_backend);
        let layer = OutputBackendLayer {
            enabled: true,
            active_backend,
            kinds,
            send_filter,
            send_gate_open: false,
        };
        Ok((layer, actions))
    }

    pub fn active_backend_kind(&self) -> (k: OutputBackendKind)
        ensures
            k == self@.active,
    {
        self.active_backend
    }

    /// The registration index of the active backend (its first entry).
    pub fn active_backend_index(&self) -> (i: usize)
        ensures
            is_first_index(self@.kinds, self@.active, i as int),
    {
        proof {
            use_type_invariant(self);
        }
        match find_kind(&self.kinds, self.active_backend) {
            Some(i) => i,
            None => 0,
        }
    }

    pub fn is_enabled(&self) -> (b: bool)
        ensures
            b == self@.enabled,
    {
        self.enabled
    }

    pub closed spec fn spec_send_filter(&self) -> OutputSendFilterConfig {
        self.send_filter
    }

    pub fn send_filter(&self) -> (f: &OutputSendFilterConfig)
        ensures
            *f == self.spec_send_filter(),
    {
        &self.send_filter
    }

    /// Stores a new send filter. When the send latch is open on an enabled layer,
    /// the returned calls deactivate the active backend; `finish_set_send_filter`
    /// then closes the send latch.
    pub fn begin_set_send_filter(&mut self, send_filter: OutputSendFilterConfig) -> (actions: Vec<
        BackendAction,
    >)
        ensures
            final(self)@ == old(self)@,
            final(self).spec_send_filter() == send_filter,
            actions@ == if old(self)@.enabled && old(self)@.gate_open {
                deactivate_actions(first_index(old(self)@.kinds, old(self)@.active))
            } else {
                Seq::empty()
            },
    {
        proof {
            use_type_invariant(&*self);
            lemma_registered_has_first_index(self.kinds@, self.active_backend);
        }
        self.send_filter = send_filter;
        if self.enabled && self.send_gate_open {
            let index = self.active_backend_index();
            proof {
                lemma_first_index(self.kinds@, self.active_backend, index as int);
            }
            make_deactivate_actions(index)
        } else {
            Vec::new()
        }
    }

    /// Closes the send latch once the deactivation calls of `begin_set_send_filter`
    /// succeeded.
    pub fn finish_set_send_filter(&mut self)
        ensures
            final(self)@ == (LayerView {
                gate_open: if old(self)@.enabled { false } else { old(self)@.gate_open },
                ..old(self)@
            }),
            final(self).spec_send_filter() == old(self).spec_send_filter(),
    {
        proof {
            use_type_invariant(&*self);
        }
        if self.enabled && self.send_gate_open {
            self.send_gate_open = false;
        }
    }

    /// Checks a switch of the active backend. Fails when `next` is not
    /// registered (unless it is already active); otherwise returns the calls
    /// that deactivate the current backend when the layer is enabled and
    /// `next` differs from it.
    pub fn begin_set_active_backend(&self, next: OutputBackendKind) -> (r: Result<
        Vec<BackendAction>,
        AppError,
    >)
        ensures
            r is Err <==> (self@.active != next && !self@.kinds.contains(next)),
            r matches Err(e) ==> e matches AppError::InvalidState(m) && m@ == not_registered_message(
                next,
            ),
            r matches Ok(actions) ==> actions@ == if self@.active != next && self@.enabled {
                deactivate_actions(first_index(self@.kinds, self@.active))
            } else {
                Seq::empty()
            },
    {
        proof {
            use_type_invariant(self);
        }
        if self.active_backend == next {
            return Ok(Vec::new());
        }
        if find_kind(&self.kinds, next).is_none() {
            let name = kind_name_str(next);
            return Err(
                AppError::InvalidState(
                    String::from_str("output backend is not registered: ").concat(name),
                ),
            );
        }
        if self.enabled {
            let index = self.active_backend_index();
            proof {
                lemma_first_index(self.kinds@, self.active_backend, index as int);
            }
            Ok(make_deactivate_actions(index))
        } else {
            Ok(Vec::new())
        }
    }

    /// Makes `next` the active backend (after `begin_set_active_backend`
    /// succeeded) and returns the calls that bring every backend's enable flag
    /// in line.
    pub fn finish_set_active_backend(&mut self, next: OutputBackendKind) -> (actions: Vec<
        BackendAction,
    >)
        requires
            old(self)@.active == next || old(self)@.kinds.contains(next),
        ensures
            old(self)@.active == next ==> final(self)@ == old(self)@ && actions@.len() == 0,
            old(self)@.active != next ==> {
                &&& final(self)@ == LayerView {
                    active: next,
                    gate_open: if old(self)@.enabled { false } else { old(self)@.gate_open },
                    ..old(self)@
                }
                &&& actions@ == sync_actions(old(self)@.kinds, old(self)@.enabled, next)
            },
            final(self).spec_send_filter() == old(self).spec_send_filter(),
    {
        proof {
            use_type_invariant(&*self);
        }
        if self.active_backend == next {
            return Vec::new();
        }
        if self.enabled {
            self.send_gate_open = false;
        }
        self.active_backend = next;
        make_sync_actions(&self.kinds, self.enabled, self.active_backend)
    }

    /// The calls to make before switching the layer's enable flag: turning an
    /// enabled layer off deactivates the active backend.
    pub fn begin_set_enabled(&self, enabled: bool) -> (actions: Vec<BackendAction>)
        ensures
            actions@ == if self@.enabled && !enabled {
                deactivate_actions(first_index(self@.kinds, self@.active))
            } else {
                Seq::empty()
            },
    {
        if self.enabled && !enabled {
            let index = self.active_backend_index();
            proof {
                lemma_first_index(self.kinds@, self.active_backend, index as int);
            }
            make_deactivate_actions(index)
        } else {
            Vec::new()
        }
    }

    /// Switches the enable flag (after `begin_set_enabled` succeeded) and
    /// returns the calls that bring every backend's enable flag in line; no
    /// calls when the flag does not change.
    pub fn finish_set_enabled(&mut self, enabled: bool) -> (actions: Vec<BackendAction>)
        ensures
            old(self)@.enabled == enabled ==> final(self)@ == old(self)@ && actions@.len() == 0,
            old(self)@.enabled != enabled ==> {
                &&& final(self)@ == LayerView {
                    enabled,
                    gate_open: if !enabled { false } else { old(self)@.gate_open },
                    ..old(self)@
                }
                &&& actions@ == sync_actions(old(self)@.kinds, enabled, old(self)@.active)
            },
            final(self).spec_send_filter() == old(self).spec_send_filter(),
    {
        proof {
            use_type_invariant(&*self);
        }
        if self.enabled == enabled {
            return Vec::new();
        }
        if self.enabled && !enabled {
            self.send_gate_open = false;
        }
        self.enabled = enabled;
        make_sync_actions(&self.kinds, self.enabled, self.active_backend)
    }

    /// The calls for one output frame, given whether the send filter allows
    /// output now. A disabled layer sends nothing. When output is allowed the
    /// latch opens and the frame goes to the active backend; when it is not,
    /// an open latch is flushed with one neutral frame (and closed by
    /// `finish_apply`).
    pub fn begin_apply(&mut self, allowed: bool) -> (actions: Vec<BackendAction>)
        ensures
            final(self).spec_send_filter() == old(self).spec_send_filter(),
            !old(self)@.enabled ==> final(self)@ == old(self)@ && actions@.len() == 0,
            old(self)@.enabled && !allowed ==> final(self)@ == old(self)@ && actions@ == if old(
                self,
            )@.gate_open {
                seq![
                    BackendAction {
                        index: first_index(old(self)@.kinds, old(self)@.active) as usize,
                        command: BackendCommand::ApplyNeutral,
                    },
                ]
            } else {
                Seq::empty()
            },
            old(self)@.enabled && allowed ==> final(self)@ == (LayerView {
                gate_open: true,
                ..old(self)@
            }) && actions@ == seq![
                BackendAction {
                    index: first_index(old(self)@.kinds, old(self)@.active) as usize,
                    command: BackendCommand::ApplyFrame,
                },
            ],
    {
        let mut actions: Vec<BackendAction> = Vec::new();
        if !self.enabled {
            return actions;
        }
        let index = self.active_backend_index();
        proof {
            lemma_first_index(self.kinds@, self.active_backend, index as int);
        }
        if !allowed {
            if self.send_gate_open {
                actions.push(BackendAction { index, command: BackendCommand::ApplyNeutral });
            }
            return actions;
        }
        self.send_gate_open = true;
        actions.push(BackendAction { index, command: BackendCommand::ApplyFrame });
        actions
    }

    /// Closes the send latch after the neutral flush of `begin_apply` succeeded.
    pub fn finish_apply(&mut self, allowed: bool)
        ensures
            final(self).spec_send_filter() == old(self).spec_send_filter(),
            final(self)@ == (LayerView {
                gate_open: if old(self)@.enabled && !allowed {
                    false
                } else {
                    old(self)@.gate_open
                },
                ..old(self)@
            }),
    {
        proof {
            use_type_invariant(&*self);
        }
        if self.enabled && !allowed && self.send_gate_open {
            self.send_gate_open = false;
        }
    }
}

/// After registration, a backend switch or an enable change, exactly the
/// backends of the active kind are enabled, and none while the layer is
/// disabled; every registered backend is told.
pub proof fn law_sync_enables_only_active(kinds: Seq<OutputBackendKind>, enabled: bool, active: OutputBackendKind)
    requires
        kinds.len() <= usize::MAX,
    ensures
        sync_actions(kinds, enabled, active).len() == kinds.len(),
        forall|i: int|
            0 <= i < kinds.len() ==> (#[trigger] sync_actions(kinds, enabled, active)[i]).index == i
                && (sync_actions(kinds, enabled, active)[i].command == BackendCommand::SetEnabled(true)
                <==> enabled && kinds[i] == active),
        !enabled ==> forall|i: int|
            0 <= i < kinds.len() ==> #[trigger] sync_actions(kinds, enabled, active)[i].command
                == BackendCommand::SetEnabled(false),
{
}

/// Deactivating a backend addresses only that backend: first it is
/// disabled, then it gets the neutral frame.
pub proof fn law_deactivation_targets_one_backend(index: int)
    requires
        0 <= index <= usize::MAX,
    ensures
        deactivate_actions(index).len() == 2,
        deactivate_actions(index)[0].index == index && deactivate_actions(index)[1].index == index,
        deactivate_actions(index)[0].command == BackendCommand::SetEnabled(false),
        deactivate_actions(index)[1].command == BackendCommand::ApplyNeutral,
{
}

} // verus!
