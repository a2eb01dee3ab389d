use core::marker::PhantomData;
use vstd::prelude::*;

verus! {

/// Stop advertising and go to hibernation after this many seconds
pub const APP_ADVERTISTE_STOP_TIMER: u32 = 60;

/// The hibernation window in the timer service's unit, hundredths of a second
pub const HIBERNATION_WINDOW: u32 = APP_ADVERTISTE_STOP_TIMER * 100;

/// Type of sound to play
#[derive(Clone, Copy, Debug, PartialEq, Eq, Structural)]
pub enum Sound {
    Connected,
    Disconnected,
    UnlockSuccess,
    UnlockFail,
    Alarm,
}

/// Defines an interface to access the peripherals
pub trait PeripheralsDriver: Sized {
    /// What `play_sound` takes to run once when a sound has come to its end
    type Callback;

    /// Takes hold of the hardware and brings it into its initial state
    fn new() -> Self;

    /// Starts `sound` in place of whatever is playing, over and over if
    /// `repeat`. `finish_callback` runs once when the sound has come to its
    /// end; it never runs if another sound takes over before that.
    fn play_sound(
        &mut self,
        sound: Sound,
        repeat: bool,
        finish_callback: Option<Self::Callback>,
    );

    /// Puts the device into hibernation
    fn start_hibernation(&mut self);

    /// Samples the die temperature, in thousandths of a degree Celsius.
    /// Blocks until the sample is there.
    fn get_temperature(&self) -> u16;

    /// Feeds the watchdog
    fn feed_watchdog(&mut self);

    /// Drives the LED pin high (`true`) or low
    fn set_led(&mut self, state: bool);
}

/// Defines an interface to control the BLE stack
pub trait BleDriver {
    /// Starts advertising
    fn start_adverstising();

    /// Stops advertising
    fn stop_adverstising();

    /// Ends the connection with this handle
    fn disconnect(connection_handle: u32);
}

/// A request to the radio
#[derive(Clone, Copy, Debug, PartialEq, Eq)]
pub enum RadioRequest {
    StartAdvertising,
    StopAdvertising,
}

/// A request to the peripherals
#[derive(Clone, Copy, Debug, PartialEq, Eq)]
pub enum PeripheralRequest {
    /// Play `sound`, over and over if `repeat`, with no completion
    PlaySound { sound: Sound, repeat: bool },
    /// Drive the LED pin high (`true`) or low
    SetLed(bool),
}

/// A request to the one-shot timer service. `T` is the service's handle for
/// a timer that it has scheduled.
#[derive(Debug, PartialEq, Eq)]
pub enum TimerRequest<T> {
    /// Schedule a timer that fires once after this many hundredths of a
    /// second, and hand the outcome to
    /// [`App::on_hibernation_timer_scheduled`]: the timer, or `None` if the
    /// service had none to give. When the timer fires, call
    /// [`App::on_hibernation_timeout`].
    Schedule { centiseconds: u32 },
    /// Cancel this timer.
    Cancel(T),
}

/// What one event asks of the collaborators: at most one request to each,
/// meant to be served in the order timer, radio, peripherals, except that a
/// disconnection plays its sound before it arms the timer. The
/// collaborators do not depend on one another. [`App`] passes the requests
/// for radio and peripherals on itself and hands the one for the timer
/// back, so with it the timer is always served last.
#[derive(Debug, PartialEq, Eq)]
pub struct Requests<T> {
    pub timer: Option<TimerRequest<T>>,
    pub radio: Option<RadioRequest>,
    pub peripherals: Option<PeripheralRequest>,
}

/// State of a session: the armed hibernation timer, the connection, and
/// what alarm and LED were last set to.
#[derive(Debug, PartialEq, Eq)]
pub struct SessionState<T> {
    pub hibernation_timer: Option<T>,
    pub connection_handle: Option<u32>,
    pub alarm_on: bool,
    pub led_state: bool,
}

impl<T> SessionState<T> {
    /// The state at boot: no timer, no connection, alarm and LED off.
    pub open spec fn initial() -> Self {
        SessionState {
            hibernation_timer: None,
            connection_handle: None,
            alarm_on: false,
            led_state: false,
        }
    }

    /// Arming: a timer over the hibernation window is scheduled unless one
    /// is armed already.
    pub open spec fn arming(self) -> Option<TimerRequest<T>> {
        if self.hibernation_timer is None {
            Some(TimerRequest::Schedule { centiseconds: HIBERNATION_WINDOW })
        } else {
            None
        }
    }

    /// Disarming: the armed timer, if any, is cancelled.
    pub open spec fn disarming(self) -> Option<TimerRequest<T>> {
        match self.hibernation_timer {
            Some(timer) => Some(TimerRequest::Cancel(timer)),
            None => None,
        }
    }

    /// Advertising starts: the timer is armed and the radio told to
    /// advertise.
    pub open spec fn after_start_advertising(self) -> (Self, Requests<T>) {
        (
            self,
            Requests {
                timer: self.arming(),
                radio: Some(RadioRequest::StartAdvertising),
                peripherals: None,
            },
        )
    }

    /// The service reports what became of a `Schedule` request. The timer
    /// is kept if none is armed; one that comes on top of an armed timer is
    /// cancelled again.
    pub open spec fn after_timer_scheduled(self, timer: Option<T>) -> (Self, Requests<T>) {
        if self.hibernation_timer is None {
            (
                SessionState { hibernation_timer: timer, ..self },
                Requests { timer: None, radio: None, peripherals: None },
            )
        } else {
            (
                self,
                Requests {
                    timer: match timer {
                        Some(surplus) => Some(TimerRequest::Cancel(surplus)),
                        None => None,
                    },
                    radio: None,
                    peripherals: None,
                },
            )
        }
    }

    /// The hibernation timer fires: the radio is told to stop advertising.
    /// The state is neither read nor changed, so the firing may be handled
    /// wherever the timer service runs its callbacks.
    pub open spec fn on_timeout() -> Requests<T> {
        Requests { timer: None, radio: Some(RadioRequest::StopAdvertising), peripherals: None }
    }

    /// A connection attempt ends, with a connection (`Some`) or rejected
    /// (`None`): the timer is disarmed, the outcome recorded, and a
    /// connection greeted with the `Connected` sound, played once.
    pub open spec fn after_connect(self, connection_handle: Option<u32>) -> (Self, Requests<T>) {
        (
            SessionState { hibernation_timer: None, connection_handle, ..self },
            Requests {
                timer: self.disarming(),
                radio: None,
                peripherals: if connection_handle is Some {
                    Some(PeripheralRequest::PlaySound { sound: Sound::Connected, repeat: false })
                } else {
                    None
                },
            },
        )
    }

    /// The connection ends: it is forgotten, the `Disconnected` sound
    /// played once and the timer armed.
    pub open spec fn after_disconnect(self) -> (Self, Requests<T>) {
        (
            SessionState { connection_handle: None, ..self },
            Requests {
                timer: self.arming(),
                radio: None,
                peripherals: Some(
                    PeripheralRequest::PlaySound { sound: Sound::Disconnected, repeat: false },
                ),
            },
        )
    }

    /// The alarm goes off: it is recorded and the `Alarm` sound played
    /// until another sound takes its place.
    pub open spec fn after_alarm(self) -> (Self, Requests<T>) {
        (
            SessionState { alarm_on: true, ..self },
            Requests {
                timer: None,
                radio: None,
                peripherals: Some(PeripheralRequest::PlaySound { sound: Sound::Alarm, repeat: true }),
            },
        )
    }

    /// The LED is set: the pin is driven and the state recorded.
    pub open spec fn after_set_led(self, state: bool) -> (Self, Requests<T>) {
        (
            SessionState { led_state: state, ..self },
            Requests {
                timer: None,
                radio: None,
                peripherals: Some(PeripheralRequest::SetLed(state)),
            },
        )
    }

    /// The state at boot.
    pub fn new() -> (session: Self)
        ensures
            session == Self::initial(),
    {
        SessionState {
            hibernation_timer: None,
            connection_handle: None,
            alarm_on: false,
            led_state: false,
        }
    }

    /// The request that arms the hibernation timer, if it is not armed.
    fn arm(&self) -> (request: Option<TimerRequest<T>>)
        ensures
            request == self.arming(),
    {
        if self.hibernation_timer.is_none() {
            Some(TimerRequest::Schedule { centiseconds: HIBERNATION_WINDOW })
        } else {
            None
        }
    }

    /// Takes the hibernation timer, if armed, into the request that cancels it.
    fn disarm(&mut self) -> (request: Option<TimerRequest<T>>)
        ensures
            request == old(self).disarming(),
            *final(self) == (SessionState { hibernation_timer: None, ..*old(self) }),
    {
        match self.hibernation_timer.take() {
            Some(timer) => Some(TimerRequest::Cancel(timer)),
            None => None,
        }
    }

    /// Handles the start of advertising.
    pub fn start_advertising(&mut self) -> (requests: Requests<T>)
        ensures
            (*final(self), requests) == old(self).after_start_advertising(),
    {
        Requests {
            timer: self.arm(),
            radio: Some(RadioRequest::StartAdvertising),
            peripherals: None,
        }
    }

    /// Handles the timer service's answer to a `Schedule` request.
    pub fn timer_scheduled(&mut self, timer: Option<T>) -> (requests: Requests<T>)
        ensures
            (*final(self), requests) == old(self).after_timer_scheduled(timer),
    {
        if self.hibernation_timer.is_none() {
            self.hibernation_timer = timer;
            Requests { timer: None, radio: None, peripherals: None }
        } else {
            Requests {
                timer: match timer {
                    Some(surplus) => Some(TimerRequest::Cancel(surplus)),
                    None => None,
                },
                radio: None,
                peripherals: None,
            }
        }
    }

    /// Handles the firing of the hibernation timer.
    pub fn timeout() -> (requests: Requests<T>)
        ensures
            requests == Self::on_timeout(),
    {
        Requests { timer: None, radio: Some(RadioRequest::StopAdvertising), peripherals: None }
    }

    /// Handles the end of a connection attempt.
    pub fn connect(&mut self, connection_handle: Option<u32>) -> (requests: Requests<T>)
        ensures
            (*final(self), requests) == old(self).after_connect(connection_handle),
    {
        self.connection_handle = connection_handle;
        if connection_handle.is_some() {
            Requests {
                timer: self.disarm(),
                radio: None,
                peripherals: Some(
                    PeripheralRequest::PlaySound { sound: Sound::Connected, repeat: false },
                ),
            }
        } else {
            Requests { timer: self.disarm(), radio: None, peripherals: None }
        }
    }

    /// Handles the end of the connection.
    pub fn disconnect(&mut self) -> (requests: Requests<T>)
        ensures
            (*final(self), requests) == old(self).after_disconnect(),
    {
        self.connection_handle = None;
        Requests {
            timer: self.arm(),
            radio: None,
            peripherals: Some(
                PeripheralRequest::PlaySound { sound: Sound::Disconnected, repeat: false },
            ),
        }
    }

    /// Handles the alarm trigger.
    pub fn alarm(&mut self) -> (requests: Requests<T>)
        ensures
            (*final(self), requests) == old(self).after_alarm(),
    {
        self.alarm_on = true;
        Requests {
            timer: None,
            radio: None,
            peripherals: Some(PeripheralRequest::PlaySound { sound: Sound::Alarm, repeat: true }),
        }
    }

    /// Handles a request to set the LED.
    pub fn set_led(&mut self, state: bool) -> (requests: Requests<T>)
        ensures
            (*final(self), requests) == old(self).after_set_led(state),
    {
        self.led_state = state;
        Requests { timer: None, radio: None, peripherals: Some(PeripheralRequest::SetLed(state)) }
    }
}

/// A connection followed at once by its end leaves the hibernation timer
/// armed exactly once, whatever the state before. The connection disarms:
/// the timer that was armed, if any, is cancelled and none is held. The
/// disconnection then asks for one timer over the hibernation window, and
/// once the service has answered with a timer that one is held, nothing is
/// cancelled, and arming again asks for nothing.
pub proof fn reconnection_arms_timer_once<T>(state: SessionState<T>, handle: u32, scheduled: T)
    ensures
        ({
            let (connected, on_connect) = state.after_connect(Some(handle));
            let (disconnected, on_disconnect) = connected.after_disconnect();
            let (armed, on_scheduled) = disconnected.after_timer_scheduled(Some(scheduled));
            &&& on_connect.timer == state.disarming()
            &&& connected.hibernation_timer is None
            &&& connected.connection_handle == Some(handle)
            &&& on_disconnect.timer == Some(
                TimerRequest::<T>::Schedule { centiseconds: HIBERNATION_WINDOW },
            )
            &&& disconnected.connection_handle is None
            &&& armed.hibernation_timer == Some(scheduled)
            &&& on_scheduled.timer is None
            &&& armed.arming() is None
        }),
{
}

/// Arming is idempotent. While a timer is armed, neither the start of
/// advertising nor a disconnection asks for another, and a timer that the
/// service reports on top of the armed one is cancelled: the armed timer
/// stays the only one.
pub proof fn armed_timer_is_never_doubled<T>(state: SessionState<T>, surplus: T)
    requires
        state.hibernation_timer is Some,
    ensures
        state.after_start_advertising().1.timer is None,
        state.after_start_advertising().0 == state,
        state.after_disconnect().1.timer is None,
        state.after_disconnect().0.hibernation_timer == state.hibernation_timer,
        state.after_timer_scheduled(Some(surplus)).1.timer == Some(TimerRequest::Cancel(surplus)),
        state.after_timer_scheduled(Some(surplus)).0 == state,
{
}

/// Holds the state of the application
pub struct App<P, BLE, T> where P: PeripheralsDriver, BLE: BleDriver {
    session: SessionState<T>,
    peripherals: Option<P>,
    _ble: PhantomData<BLE>,
}

impl<P, BLE, T> View for App<P, BLE, T> where P: PeripheralsDriver, BLE: BleDriver {
    type V = SessionState<T>;

    closed spec fn view(&self) -> SessionState<T> {
        self.session
    }
}

/// Business logic of the application
impl<P, BLE, T> App<P, BLE, T> where P: PeripheralsDriver, BLE: BleDriver {
    /// Whether the peripherals have been initialized.
    pub closed spec fn is_initialized(&self) -> bool {
        self.peripherals is Some
    }

    /// The peripherals, once they have been initialized.
    pub closed spec fn driver(&self) -> P {
        self.peripherals->0
    }

    /// Whether the peripherals have been initialized
    pub fn has_peripherals(&self) -> (initialized: bool)
        ensures
            initialized == self.is_initialized(),
    {
        self.peripherals.is_some()
    }

    /// Create new instance of App
    pub fn new() -> (app: Self)
        ensures
            app@ == SessionState::<T>::initial(),
            !app.is_initialized(),
    {
        Self { session: SessionState::new(), peripherals: None, _ble: PhantomData }
    }

    /// Initialize peripherals: from then on the application holds what
    /// one call of the driver's `new` returned. The session stays as it is.
    pub fn init_peripherals(&mut self)
        ensures
            final(self).is_initialized(),
            call_ensures(P::new, (), final(self).driver()),
            final(self)@ == old(self)@,
    {
        self.peripherals = Some(P::new());
    }

    /// Passes a request on to the radio.
    fn perform_radio(request: Option<RadioRequest>) {
        match request {
            Some(RadioRequest::StartAdvertising) => BLE::start_adverstising(),
            Some(RadioRequest::StopAdvertising) => BLE::stop_adverstising(),
            None => {},
        }
    }

    /// Passes the requests for radio and peripherals on to the drivers and
    /// returns the one for the timer service. A request to the peripherals
    /// is one call of the driver's method with the request's arguments; with
    /// no such request the peripherals stay as they are.
    fn perform(&mut self, requests: Requests<T>) -> (timer: Option<TimerRequest<T>>)
        requires
            requests.peripherals is Some ==> old(self).is_initialized(),
        ensures
            timer == requests.timer,
            final(self)@ == old(self)@,
            final(self).is_initialized() == old(self).is_initialized(),
            match requests.peripherals {
                Some(PeripheralRequest::PlaySound { sound, repeat }) => exists|driver: &mut P|
                    *driver == old(self).driver() && *final(driver) == final(self).driver()
                        && call_ensures(
                        P::play_sound,
                        (driver, sound, repeat, None::<P::Callback>),
                        (),
                    ),
                Some(PeripheralRequest::SetLed(state)) => exists|driver: &mut P|
                    *driver == old(self).driver() && *final(driver) == final(self).driver()
                        && call_ensures(P::set_led, (driver, state), ()),
                None => final(self).driver() == old(self).driver(),
            },
    {
        Self::perform_radio(requests.radio);
        match requests.peripherals {
            Some(PeripheralRequest::PlaySound { sound, repeat }) => {
                self.peripherals().play_sound(sound, repeat, None);
            },
            Some(PeripheralRequest::SetLed(state)) => {
                self.peripherals().set_led(state);
            },
            None => {},
        }
        requests.timer
    }

    /// Start advertising handler: asks the radio to advertise and returns
    /// the request that arms the hibernation timer, if it is not armed. The
    /// peripherals are left alone.
    ///
    /// The radio is asked here, before the caller can serve the timer
    /// request; arming first and advertising then is the order meant.
    pub fn on_start_advertising(&mut self) -> (timer: Option<TimerRequest<T>>)
        ensures
            final(self)@ == old(self)@.after_start_advertising().0,
            timer == old(self)@.after_start_advertising().1.timer,
            final(self).driver() == old(self).driver(),
            final(self).is_initialized() == old(self).is_initialized(),
    {
        let requests = self.session.start_advertising();
        self.perform(requests)
    }

    /// Handler for the timer service's answer to a `Schedule` request. The
    /// peripherals are left alone.
    pub fn on_hibernation_timer_scheduled(&mut self, scheduled: Option<T>) -> (timer: Option<
        TimerRequest<T>,
    >)
        ensures
            final(self)@ == old(self)@.after_timer_scheduled(scheduled).0,
            timer == old(self)@.after_timer_scheduled(scheduled).1.timer,
            final(self).driver() == old(self).driver(),
            final(self).is_initialized() == old(self).is_initialized(),
    {
        let requests = self.session.timer_scheduled(scheduled);
        self.perform(requests)
    }

    /// Handler for the firing of the hibernation timer. It takes no state,
    /// so it may run wherever the timer service runs its callbacks.
    pub fn on_hibernation_timeout() {
        let requests = SessionState::<T>::timeout();
        Self::perform_radio(requests.radio);
    }

    /// Start hibernation handler: one call of the driver's
    /// `start_hibernation` on the peripherals, which takes them from what
    /// they were to what they are afterwards. The session stays as it is.
    pub fn on_start_hibernation(&mut self)
        requires
            old(self).is_initialized(),
        ensures
            exists|driver: &mut P|
                *driver == old(self).driver() && *final(driver) == final(self).driver()
                    && call_ensures(P::start_hibernation, (driver,), ()),
            final(self)@ == old(self)@,
            final(self).is_initialized(),
    {
        self.peripherals().start_hibernation();
    }

    /// Set LED: one call of the driver's `set_led` with `state` drives the
    /// pin, and the state is recorded.
    pub fn on_set_led(&mut self, state: bool)
        requires
            old(self).is_initialized(),
        ensures
            final(self)@ == old(self)@.after_set_led(state).0,
            exists|driver: &mut P|
                *driver == old(self).driver() && *final(driver) == final(self).driver()
                    && call_ensures(P::set_led, (driver, state), ()),
            final(self).is_initialized(),
    {
        let requests = self.session.set_led(state);
        let _ = self.perform(requests);
    }

    /// Get state of the LED
    pub fn get_led_state(&mut self) -> (state: bool)
        ensures
            state == old(self)@.led_state,
            *final(self) == *old(self),
    {
        self.session.led_state
    }

    /// Get the die temperature: the value that one call of the driver's
    /// `get_temperature` on the peripherals returns. Neither the
    /// peripherals nor the session change.
    pub fn get_temperature(&mut self) -> (temperature: u16)
        requires
            old(self).is_initialized(),
        ensures
            call_ensures(P::get_temperature, (&old(self).driver(),), temperature),
            final(self).driver() == old(self).driver(),
            final(self)@ == old(self)@,
            final(self).is_initialized(),
    {
        self.peripherals().get_temperature()
    }

    /// Connect event handler: records the outcome and returns the request
    /// that cancels the hibernation timer, if one is armed. A connection is
    /// greeted with one call of the driver's `play_sound` for `Connected`,
    /// not repeating and with no completion; a rejected attempt leaves the
    /// peripherals alone.
    ///
    /// The sound is started here, before the caller can serve the timer
    /// request; cancelling first and playing then is the order meant.
    pub fn on_connect(&mut self, connection_handle: Option<u32>) -> (timer: Option<TimerRequest<T>>)
        requires
            connection_handle is Some ==> old(self).is_initialized(),
        ensures
            final(self)@ == old(self)@.after_connect(connection_handle).0,
            timer == old(self)@.after_connect(connection_handle).1.timer,
            connection_handle is Some ==> exists|driver: &mut P|
                *driver == old(self).driver() && *final(driver) == final(self).driver()
                    && call_ensures(
                    P::play_sound,
                    (driver, Sound::Connected, false, None::<P::Callback>),
                    (),
                ),
            connection_handle is None ==> final(self).driver() == old(self).driver(),
            final(self).is_initialized() == old(self).is_initialized(),
    {
        let requests = self.session.connect(connection_handle);
        self.perform(requests)
    }

    /// Disonnect event handler: forgets the connection, starts the
    /// `Disconnected` sound with one call of the driver's `play_sound`, not
    /// repeating and with no completion, and returns the request that arms
    /// the hibernation timer, if it is not armed.
    pub fn on_disconnect(&mut self) -> (timer: Option<TimerRequest<T>>)
        requires
            old(self).is_initialized(),
        ensures
            final(self)@ == old(self)@.after_disconnect().0,
            timer == old(self)@.after_disconnect().1.timer,
            exists|driver: &mut P|
                *driver == old(self).driver() && *final(driver) == final(self).driver()
                    && call_ensures(
                    P::play_sound,
                    (driver, Sound::Disconnected, false, None::<P::Callback>),
                    (),
                ),
            final(self).is_initialized(),
    {
        let requests = self.session.disconnect();
        self.perform(requests)
    }

    /// Alarm event handler: records the alarm and starts the `Alarm` sound
    /// with one call of the driver's `play_sound`, repeating and with no
    /// completion.
    pub fn on_alarm(&mut self)
        requires
            old(self).is_initialized(),
        ensures
            final(self)@ == old(self)@.after_alarm().0,
            exists|driver: &mut P|
                *driver == old(self).driver() && *final(driver) == final(self).driver()
                    && call_ensures(
                    P::play_sound,
                    (driver, Sound::Alarm, true, None::<P::Callback>),
                    (),
                ),
            final(self).is_initialized(),
    {
        let requests = self.session.alarm();
        let _ = self.perform(requests);
    }

    /// The state of the session
    pub fn session(&self) -> (session: &SessionState<T>)
        ensures
            *session == self@,
    {
        &self.session
    }

    /// Feeds the watchdog: one call of the driver's `feed_watchdog` on the
    /// peripherals, which takes them from what they were to what they are
    /// afterwards. The session stays as it is.
    pub fn feed_watchdog(&mut self)
        requires
            old(self).is_initialized(),
        ensures
            exists|driver: &mut P|
                *driver == old(self).driver() && *final(driver) == final(self).driver()
                    && call_ensures(P::feed_watchdog, (driver,), ()),
            final(self)@ == old(self)@,
            final(self).is_initialized(),
    {
        self.peripherals().feed_watchdog();
    }

    /// The peripherals, for use by the caller: what is done to them through
    /// the reference is what the application then holds.
    pub fn peripherals(&mut self) -> (peripherals: &mut P)
        requires
            old(self).is_initialized(),
        ensures
            *peripherals == old(self).driver(),
            final(self).driver() == *final(peripherals),
            final(self).is_initialized(),
            final(self)@ == old(self)@,
    {
        self.peripherals.as_mut().unwrap()
    }
}

} // verus!
