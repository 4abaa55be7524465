//! Finding the browser that holds a logged-in session.
//!
//! Browsers are tried in `detection_order`; the first whose store holds a
//! session cookie wins. Reading a Chromium store may need a permission prompt
//! first (the keychain on macOS, elevation on Windows), shown at most once per
//! run; Safari on macOS may need Full Disk Access. The caller performs each
//! action and reports what happened; this module decides the next step.
use vstd::prelude::*;

use crate::browser::{detection_order_spec, is_chromium_spec, BrowserKind};
use crate::cookie_jar::{session_cookie_name, CookieJar};
use crate::cookies::CookieError;
use crate::platform::Platform;

verus! {

/// What a read of one browser's store found.
#[derive(Clone, Copy, Debug, PartialEq, Eq, Structural)]
pub enum ReadOutcome {
    /// The store holds a session cookie.
    HasSession,
    /// The store was read but holds no session cookie.
    NoSession,
    /// The store is out of reach without Full Disk Access.
    PermissionDenied,
    /// The store could not be read for another reason.
    Failed,
}

/// What the detection is waiting for.
#[derive(Clone, Copy, Debug, PartialEq, Eq, Structural)]
pub enum DetectPhase {
    /// Whether this executable already explained the keychain prompt.
    KeychainCheck,
    /// The user's answer to the keychain explanation.
    KeychainAnswer,
    /// Recording that this executable explained the keychain prompt.
    KeychainRecord,
    /// The answer to the elevation request.
    Elevation,
    /// The result of reading the current browser's store.
    Read,
    /// The Full Disk Access explanation to be dismissed.
    FullDiskPrompt,
    /// Nothing: detection is over.
    Done,
}

/// Progress of a detection run.
#[derive(Clone, Copy, Debug, PartialEq, Eq, Structural)]
pub struct DetectState {
    pub platform: Platform,
    /// Position of the current browser in the detection order.
    pub index: usize,
    /// The keychain explanation was considered in this run.
    pub prompted_keychain: bool,
    /// Elevation was requested in this run.
    pub prompted_elevation: bool,
    pub phase: DetectPhase,
}

/// What the caller reports after performing an action.
#[derive(Clone, Copy, Debug, PartialEq, Eq, Structural)]
pub enum DetectEvent {
    KeychainChecked { already_prompted: bool },
    KeychainAnswered { proceed: bool },
    KeychainRecorded,
    ElevationAnswered { proceed: bool },
    CookiesRead(ReadOutcome),
    FullDiskPromptShown,
}

/// What the caller is to do next.
#[derive(Clone, Copy, Debug, PartialEq, Eq, Structural)]
pub enum DetectAction {
    /// Report whether the settings name this executable as the one that last
    /// explained the keychain prompt.
    CheckKeychainPrompted,
    /// Explain the coming keychain prompt and ask whether to continue.
    PromptKeychain,
    /// Record this executable in the settings as having explained it.
    RecordKeychainPrompt,
    /// Ask for administrator rights (Windows).
    Elevate,
    /// Read the cookies of this browser and report what was found.
    ReadCookies(BrowserKind),
    /// Explain how to grant Full Disk Access.
    PromptFullDiskAccess,
    /// Detection is over: the browser with a session, if one was found.
    Finish(Option<BrowserKind>),
}

/// The browser at position `i` of the detection order on `p`.
pub open spec fn browser_at(p: Platform, i: int) -> BrowserKind {
    detection_order_spec(p)[i]
}

/// Starts work on the browser at `s.index`, or finishes when none is left.
pub open spec fn begin_spec(s: DetectState) -> (DetectState, DetectAction) {
    let p = s.platform;
    if s.index >= detection_order_spec(p).len() {
        (DetectState { phase: DetectPhase::Done, ..s }, DetectAction::Finish(None))
    } else {
        let b = browser_at(p, s.index as int);
        if p == Platform::MacOs && b == BrowserKind::Safari {
            (DetectState { phase: DetectPhase::Read, ..s }, DetectAction::ReadCookies(b))
        } else if p == Platform::MacOs && !s.prompted_keychain && is_chromium_spec(b) {
            (
                DetectState { phase: DetectPhase::KeychainCheck, prompted_keychain: true, ..s },
                DetectAction::CheckKeychainPrompted,
            )
        } else if p == Platform::Windows && !s.prompted_elevation && is_chromium_spec(b) {
            (
                DetectState { phase: DetectPhase::Elevation, prompted_elevation: true, ..s },
                DetectAction::Elevate,
            )
        } else {
            (DetectState { phase: DetectPhase::Read, ..s }, DetectAction::ReadCookies(b))
        }
    }
}

/// Reads the current browser's store.
pub open spec fn read_spec(s: DetectState) -> (DetectState, DetectAction) {
    (
        DetectState { phase: DetectPhase::Read, ..s },
        DetectAction::ReadCookies(browser_at(s.platform, s.index as int)),
    )
}

/// Moves on to the next browser.
pub open spec fn advance_spec(s: DetectState) -> (DetectState, DetectAction) {
    begin_spec(DetectState { index: (s.index + 1) as usize, ..s })
}

/// Ends the run without a browser.
pub open spec fn give_up_spec(s: DetectState) -> (DetectState, DetectAction) {
    (DetectState { phase: DetectPhase::Done, ..s }, DetectAction::Finish(None))
}

/// The step taken on event `e` in state `s`. An event the phase does not
/// expect ends the run without a browser.
pub open spec fn detect_next(s: DetectState, e: DetectEvent) -> (DetectState, DetectAction) {
    match (s.phase, e) {
        (DetectPhase::KeychainCheck, DetectEvent::KeychainChecked { already_prompted }) => {
            if already_prompted {
                read_spec(s)
            } else {
                (DetectState { phase: DetectPhase::KeychainAnswer, ..s }, DetectAction::PromptKeychain)
            }
        },
        (DetectPhase::KeychainAnswer, DetectEvent::KeychainAnswered { proceed }) => {
            if proceed {
                (
                    DetectState { phase: DetectPhase::KeychainRecord, ..s },
                    DetectAction::RecordKeychainPrompt,
                )
            } else {
                give_up_spec(s)
            }
        },
        (DetectPhase::KeychainRecord, DetectEvent::KeychainRecorded) => read_spec(s),
        (DetectPhase::Elevation, DetectEvent::ElevationAnswered { proceed }) => {
            if proceed {
                read_spec(s)
            } else {
                give_up_spec(s)
            }
        },
        (DetectPhase::Read, DetectEvent::CookiesRead(outcome)) => {
            let b = browser_at(s.platform, s.index as int);
            if outcome == ReadOutcome::HasSession {
                (DetectState { phase: DetectPhase::Done, ..s }, DetectAction::Finish(Some(b)))
            } else if s.platform == Platform::MacOs && b == BrowserKind::Safari && outcome
                == ReadOutcome::PermissionDenied {
                (
                    DetectState { phase: DetectPhase::FullDiskPrompt, ..s },
                    DetectAction::PromptFullDiskAccess,
                )
            } else {
                advance_spec(s)
            }
        },
        (DetectPhase::FullDiskPrompt, DetectEvent::FullDiskPromptShown) => advance_spec(s),
        _ => give_up_spec(s),
    }
}

/// A state the run can be in: the current position is a real browser
/// unless the run is over.
pub open spec fn detect_valid(s: DetectState) -> bool {
    s.phase != DetectPhase::Done ==> s.index < detection_order_spec(s.platform).len()
}

/// The browser at position `i` of the detection order on `p`.
fn browser_at_exec(p: Platform, i: usize) -> (r: BrowserKind)
    requires
        i < detection_order_spec(p).len(),
    ensures
        r == browser_at(p, i as int),
{
    if i == 0 {
        BrowserKind::Firefox
    } else if i == 1 {
        BrowserKind::Chrome
    } else if i == 2 {
        BrowserKind::Brave
    } else if i == 3 {
        BrowserKind::Edge
    } else {
        BrowserKind::Safari
    }
}

fn order_len(p: Platform) -> (r: usize)
    ensures
        r == detection_order_spec(p).len(),
{
    if p == Platform::MacOs {
        5
    } else {
        4
    }
}

fn is_chromium_kind(b: BrowserKind) -> (r: bool)
    ensures
        r == is_chromium_spec(b),
{
    match b {
        BrowserKind::Chrome | BrowserKind::Brave | BrowserKind::Edge => true,
        _ => false,
    }
}

/// What a read of a store found, for the detection.
pub fn read_outcome(r: &Result<CookieJar, CookieError>) -> (o: ReadOutcome)
    ensures
        o == match r {
            Ok(j) => if j@.contains_key(session_cookie_name()) {
                ReadOutcome::HasSession
            } else {
                ReadOutcome::NoSession
            },
            Err(CookieError::PermissionDenied) => ReadOutcome::PermissionDenied,
            Err(_) => ReadOutcome::Failed,
        },
{
    match r {
        Ok(j) => if j.has_session() {
            ReadOutcome::HasSession
        } else {
            ReadOutcome::NoSession
        },
        Err(CookieError::PermissionDenied) => ReadOutcome::PermissionDenied,
        Err(_) => ReadOutcome::Failed,
    }
}

impl DetectState {
    fn begin(&mut self) -> (a: DetectAction)
        ensures
            (*final(self), a) == begin_spec(*old(self)),
    {
        let p = self.platform;
        if self.index >= order_len(p) {
            self.phase = DetectPhase::Done;
            return DetectAction::Finish(None);
        }
        let b = browser_at_exec(p, self.index);
        if p == Platform::MacOs && b == BrowserKind::Safari {
            self.phase = DetectPhase::Read;
            DetectAction::ReadCookies(b)
        } else if p == Platform::MacOs && !self.prompted_keychain && is_chromium_kind(b) {
            self.phase = DetectPhase::KeychainCheck;
            self.prompted_keychain = true;
            DetectAction::CheckKeychainPrompted
        } else if p == Platform::Windows && !self.prompted_elevation && is_chromium_kind(b) {
            self.phase = DetectPhase::Elevation;
            self.prompted_elevation = true;
            DetectAction::Elevate
        } else {
            self.phase = DetectPhase::Read;
            DetectAction::ReadCookies(b)
        }
    }

    /// Starts a detection run on `p`; returns the first action.
    pub fn start(p: Platform) -> (r: (DetectState, DetectAction))
        ensures
            r == begin_spec(
                DetectState {
                    platform: p,
                    index: 0,
                    prompted_keychain: false,
                    prompted_elevation: false,
                    phase: DetectPhase::Done,
                },
            ),
            detect_valid(r.0),
    {
        let mut s = DetectState {
            platform: p,
            index: 0,
            prompted_keychain: false,
            prompted_elevation: false,
            phase: DetectPhase::Done,
        };
        let a = s.begin();
        (s, a)
    }

    /// Takes the outcome of the last action; returns the next one.
    pub fn step(&mut self, e: DetectEvent) -> (a: DetectAction)
        requires
            detect_valid(*old(self)),
        ensures
            (*final(self), a) == detect_next(*old(self), e),
            detect_valid(*final(self)),
    {
        match (self.phase, e) {
            (DetectPhase::KeychainCheck, DetectEvent::KeychainChecked { already_prompted }) => {
                if already_prompted {
                    self.phase = DetectPhase::Read;
                    DetectAction::ReadCookies(browser_at_exec(self.platform, self.index))
                } else {
                    self.phase = DetectPhase::KeychainAnswer;
                    DetectAction::PromptKeychain
                }
            },
            (DetectPhase::KeychainAnswer, DetectEvent::KeychainAnswered { proceed }) => {
                if proceed {
                    self.phase = DetectPhase::KeychainRecord;
                    DetectAction::RecordKeychainPrompt
                } else {
                    self.phase = DetectPhase::Done;
                    DetectAction::Finish(None)
                }
            },
            (DetectPhase::KeychainRecord, DetectEvent::KeychainRecorded) => {
                self.phase = DetectPhase::Read;
                DetectAction::ReadCookies(browser_at_exec(self.platform, self.index))
            },
            (DetectPhase::Elevation, DetectEvent::ElevationAnswered { proceed }) => {
                if proceed {
                    self.phase = DetectPhase::Read;
                    DetectAction::ReadCookies(browser_at_exec(self.platform, self.index))
                } else {
                    self.phase = DetectPhase::Done;
                    DetectAction::Finish(None)
                }
            },
            (DetectPhase::Read, DetectEvent::CookiesRead(outcome)) => {
                let b = browser_at_exec(self.platform, self.index);
                if outcome == ReadOutcome::HasSession {
                    self.phase = DetectPhase::Done;
                    DetectAction::Finish(Some(b))
                } else if self.platform == Platform::MacOs && b == BrowserKind::Safari && outcome
                    == ReadOutcome::PermissionDenied {
                    self.phase = DetectPhase::FullDiskPrompt;
                    DetectAction::PromptFullDiskAccess
                } else {
                    self.index = self.index + 1;
                    self.begin()
                }
            },
            (DetectPhase::FullDiskPrompt, DetectEvent::FullDiskPromptShown) => {
                self.index = self.index + 1;
                self.begin()
            },
            _ => {
                self.phase = DetectPhase::Done;
                DetectAction::Finish(None)
            },
        }
    }
}

/// A run reports a browser only right after reading that browser's store
/// and finding a session cookie there.
pub proof fn lemma_detect_reports_only_sessions(s: DetectState, e: DetectEvent, b: BrowserKind)
    requires
        detect_next(s, e).1 == DetectAction::Finish(Some(b)),
    ensures
        s.phase == DetectPhase::Read,
        e == DetectEvent::CookiesRead(ReadOutcome::HasSession),
        b == browser_at(s.platform, s.index as int),
{
}

/// Each permission prompt is considered at most once per run: the flags
/// never clear, and the keychain check and the elevation request are asked
/// for only when their flag was clear, setting it.
pub proof fn lemma_detect_prompts_once(s: DetectState, e: DetectEvent)
    ensures
        s.prompted_keychain ==> detect_next(s, e).0.prompted_keychain,
        s.prompted_elevation ==> detect_next(s, e).0.prompted_elevation,
        detect_next(s, e).1 == DetectAction::CheckKeychainPrompted ==> !s.prompted_keychain
            && detect_next(s, e).0.prompted_keychain,
        detect_next(s, e).1 == DetectAction::Elevate ==> !s.prompted_elevation && detect_next(
            s,
            e,
        ).0.prompted_elevation,
{
}

/// Browsers are tried in order: a step never moves back in the detection
/// order, and a read is only ever asked for the current browser.
pub proof fn lemma_detect_in_order(s: DetectState, e: DetectEvent, b: BrowserKind)
    requires
        detect_valid(s),
    ensures
        detect_next(s, e).0.index >= s.index,
        detect_next(s, e).1 == DetectAction::ReadCookies(b) ==> b == browser_at(
            s.platform,
            detect_next(s, e).0.index as int,
        ),
{
}

/// When the keychain explanation was already shown by this executable, the
/// current browser's store is read next: the browser is not skipped.
pub proof fn lemma_detect_keychain_known_reads_current(s: DetectState)
    requires
        s.phase == DetectPhase::KeychainCheck,
    ensures
        detect_next(s, DetectEvent::KeychainChecked { already_prompted: true }).0.index == s.index,
        detect_next(s, DetectEvent::KeychainChecked { already_prompted: true }).1
            == DetectAction::ReadCookies(detection_order_spec(s.platform)[s.index as int]),
{
}

/// A granted prompt (keychain recorded, elevation allowed) is followed by a
/// read of the browser it was asked for.
pub proof fn lemma_detect_prompt_then_read(s: DetectState, e: DetectEvent)
    requires
        (s.phase == DetectPhase::KeychainRecord && e == DetectEvent::KeychainRecorded) || (s.phase
            == DetectPhase::Elevation && e == DetectEvent::ElevationAnswered { proceed: true }),
    ensures
        detect_next(s, e).0.index == s.index,
        detect_next(s, e).1 == DetectAction::ReadCookies(detection_order_spec(s.platform)[s.index as int]),
{
}

/// Detection never moves past a browser whose store it has not read: the
/// position moves by at most one, and only after a read of the current
/// store (or the Full Disk Access explanation that follows a refused read).
pub proof fn lemma_detect_advances_only_after_read(s: DetectState, e: DetectEvent)
    requires
        detect_valid(s),
    ensures
        detect_next(s, e).0.index == s.index || (detect_next(s, e).0.index == s.index + 1 && (
        (s.phase == DetectPhase::Read && e is CookiesRead) || (s.phase == DetectPhase::FullDiskPrompt
            && e is FullDiskPromptShown))),
{
}

} // verus!
