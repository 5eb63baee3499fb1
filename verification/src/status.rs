//! Status LED state machine: four states driving three digital outputs.
//!
//! Each boolean field models whether the corresponding push-pull output is
//! asserted high; the embedding program mirrors the booleans onto the
//! physical pins after every transition. Both transitions demand a
//! `critical_section` token: shared LED state is only ever mutated with
//! interrupts masked.

use critical_section::CriticalSection;
use vstd::prelude::*;

use crate::buffers::DetectionMsg;

verus! {

/// All states for LEDs.
#[derive(Clone, Copy, Debug, PartialEq, Eq, Structural)]
pub enum StatusLedStates {
    /// Green
    Normal,
    /// Yellow
    Alert,
    /// Red
    Error,
    /// None illuminated
    Disabled,
}

/// Controls the status LEDs on separate pins.
pub struct StatusLedMulti {
    /// Current LED state
    pub state: StatusLedStates,
    /// Green output asserted high
    pub normal_led: bool,
    /// Yellow output asserted high
    pub alert_led: bool,
    /// Red output asserted high
    pub error_led: bool,
}

/// The error transition: deassert whichever of the Normal or Alert LEDs the
/// current state had lit, assert the Error LED, and record the Error state.
pub open spec fn error_transition(s: StatusLedMulti) -> StatusLedMulti {
    StatusLedMulti {
        state: StatusLedStates::Error,
        normal_led: if s.state == StatusLedStates::Normal {
            false
        } else {
            s.normal_led
        },
        alert_led: if s.state == StatusLedStates::Alert {
            false
        } else {
            s.alert_led
        },
        error_led: true,
    }
}

/// The alert transition: deassert whichever of the Normal or Error LEDs the
/// current state had lit, assert the Alert LED, and record the Alert state.
pub open spec fn alert_transition(s: StatusLedMulti) -> StatusLedMulti {
    StatusLedMulti {
        state: StatusLedStates::Alert,
        normal_led: if s.state == StatusLedStates::Normal {
            false
        } else {
            s.normal_led
        },
        alert_led: true,
        error_led: if s.state == StatusLedStates::Error {
            false
        } else {
            s.error_led
        },
    }
}

/// Normal transition discipline: the recorded state says which single LED is
/// asserted; Disabled asserts none.
pub open spec fn led_discipline(s: StatusLedMulti) -> bool {
    match s.state {
        StatusLedStates::Normal => s.normal_led && !s.alert_led && !s.error_led,
        StatusLedStates::Alert => !s.normal_led && s.alert_led && !s.error_led,
        StatusLedStates::Error => !s.normal_led && !s.alert_led && s.error_led,
        StatusLedStates::Disabled => !s.normal_led && !s.alert_led && !s.error_led,
    }
}

/// LED transition table: from Normal, the alert transition yields Alert with
/// the Normal LED deasserted and the Alert LED asserted; from Alert, the
/// error transition yields Error with the Alert LED deasserted and the Error
/// LED asserted; from Error, the error transition changes nothing and the
/// alert transition leaves the already-deasserted Normal LED untouched.
pub proof fn lemma_led_transition_table(s: StatusLedMulti)
    ensures
        s.state == StatusLedStates::Normal ==> {
            &&& alert_transition(s).state == StatusLedStates::Alert
            &&& !alert_transition(s).normal_led
            &&& alert_transition(s).alert_led
        },
        s.state == StatusLedStates::Alert ==> {
            &&& error_transition(s).state == StatusLedStates::Error
            &&& !error_transition(s).alert_led
            &&& error_transition(s).error_led
        },
        s.state == StatusLedStates::Error && led_discipline(s) ==> error_transition(s) == s,
        s.state == StatusLedStates::Error ==> alert_transition(s).normal_led == s.normal_led,
{
}

/// Both transitions keep the normal transition discipline: at most one of
/// the Normal, Alert and Error LEDs is ever asserted at a time.
pub proof fn lemma_transitions_preserve_discipline(s: StatusLedMulti)
    requires
        led_discipline(s),
    ensures
        led_discipline(alert_transition(s)),
        led_discipline(error_transition(s)),
{
}

impl StatusLedMulti {
    /// The initial LED assignment: the system starts in the cautious Alert
    /// state, Alert LED asserted, until the first determination is made by
    /// the surrounding logic. The singleton claim and the physical pin setup
    /// belong to the embedding program.
    pub fn init() -> (s: StatusLedMulti)
        ensures
            s.state == StatusLedStates::Alert,
            !s.normal_led,
            s.alert_led,
            !s.error_led,
            led_discipline(s),
    {
        StatusLedMulti {
            state: StatusLedStates::Alert,
            normal_led: false,
            alert_led: true,
            error_led: false,
        }
    }

    /// Apply the error transition. The token proves a critical section is
    /// held for the whole mutation; the message, when present, goes to the
    /// log sink outside this core together with the fixed power-cycle
    /// instruction. This signals an operator-visible fault: no transition of
    /// the surrounding design exits the Error state.
    pub fn set_error(&mut self, _cs: CriticalSection<'_>, _message: Option<&str>)
        ensures
            *final(self) == error_transition(*old(self)),
    {
        match self.state {
            StatusLedStates::Normal => {
                self.normal_led = false;
            },
            StatusLedStates::Alert => {
                self.alert_led = false;
            },
            StatusLedStates::Error | StatusLedStates::Disabled => {},
        }
        self.error_led = true;
        self.state = StatusLedStates::Error;
    }

    /// Apply the alert transition. The token proves a critical section is
    /// held for the whole mutation; the detection message, when present,
    /// goes to the log sink outside this core.
    pub fn set_alert(&mut self, _cs: CriticalSection<'_>, _message: Option<DetectionMsg>)
        ensures
            *final(self) == alert_transition(*old(self)),
    {
        match self.state {
            StatusLedStates::Normal => {
                self.normal_led = false;
            },
            StatusLedStates::Error => {
                self.error_led = false;
            },
            StatusLedStates::Alert | StatusLedStates::Disabled => {},
        }
        self.alert_led = true;
        self.state = StatusLedStates::Alert;
    }
}

} // verus!
