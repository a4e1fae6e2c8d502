//! Host capabilities offered to script plugins: the host registers a
//! callback for each one, and the script runtime looks the current one up.
use vstd::prelude::*;

verus! {

/// Holds the callback currently registered for one capability.
pub struct ProviderSlot<F> {
    cb: Option<F>,
}

impl<F> ProviderSlot<F> {
    /// The registered callback, if any.
    pub closed spec fn current(&self) -> Option<F> {
        self.cb
    }

    /// A slot with nothing registered.
    pub fn new() -> (s: Self)
        ensures
            s.current() is None,
    {
        ProviderSlot { cb: None }
    }

    /// Registers `cb`, replacing any earlier callback.
    pub fn register(&mut self, cb: F)
        ensures
            final(self).current() == Some(cb),
    {
        self.cb = Some(cb);
    }

    /// The registered callback.
    pub fn provider(&self) -> (r: Option<&F>)
        ensures
            (match r {
                Some(f) => self.current() == Some(*f),
                None => self.current() is None,
            }),
    {
        match &self.cb {
            Some(f) => Some(f),
            None => None,
        }
    }
}

/// The callbacks of all host capabilities: showing a render request,
/// pasting text, reading the clipboard, saving a file, sending keys, running
/// an overlay command and capturing the screen.
pub struct Capabilities<I, P, R, S, K, O, C> {
    pub intent: ProviderSlot<I>,
    pub paste: ProviderSlot<P>,
    pub read_text: ProviderSlot<R>,
    pub save_file: ProviderSlot<S>,
    pub send_keys: ProviderSlot<K>,
    pub overlay: ProviderSlot<O>,
    pub capture: ProviderSlot<C>,
}

impl<I, P, R, S, K, O, C> Capabilities<I, P, R, S, K, O, C> {
    /// No capability registered.
    pub fn new() -> (c: Self)
        ensures
            c.intent.current() is None,
            c.paste.current() is None,
            c.read_text.current() is None,
            c.save_file.current() is None,
            c.send_keys.current() is None,
            c.overlay.current() is None,
            c.capture.current() is None,
    {
        Capabilities {
            intent: ProviderSlot::new(),
            paste: ProviderSlot::new(),
            read_text: ProviderSlot::new(),
            save_file: ProviderSlot::new(),
            send_keys: ProviderSlot::new(),
            overlay: ProviderSlot::new(),
            capture: ProviderSlot::new(),
        }
    }
}

/// Registers the callback that shows render requests.
pub fn register_intent<F>(slot: &mut ProviderSlot<F>, cb: F)
    ensures
        final(slot).current() == Some(cb),
{
    slot.register(cb);
}

/// Registers the callback that pastes text.
pub fn register_paste<F>(slot: &mut ProviderSlot<F>, cb: F)
    ensures
        final(slot).current() == Some(cb),
{
    slot.register(cb);
}

/// Registers the callback that reads clipboard text.
pub fn register_read_text<F>(slot: &mut ProviderSlot<F>, cb: F)
    ensures
        final(slot).current() == Some(cb),
{
    slot.register(cb);
}

/// Registers the callback that saves a file.
pub fn register_save_file<F>(slot: &mut ProviderSlot<F>, cb: F)
    ensures
        final(slot).current() == Some(cb),
{
    slot.register(cb);
}

/// Registers the callback that sends keys.
pub fn register_send_keys<F>(slot: &mut ProviderSlot<F>, cb: F)
    ensures
        final(slot).current() == Some(cb),
{
    slot.register(cb);
}

/// Registers the callback that runs overlay commands.
pub fn register_overlay<F>(slot: &mut ProviderSlot<F>, cb: F)
    ensures
        final(slot).current() == Some(cb),
{
    slot.register(cb);
}

/// Registers the callback that captures the screen.
pub fn register_capture<F>(slot: &mut ProviderSlot<F>, cb: F)
    ensures
        final(slot).current() == Some(cb),
{
    slot.register(cb);
}

/// The callback that shows render requests.
pub fn intent_provider<F>(slot: &ProviderSlot<F>) -> (r: Option<&F>)
    ensures
        (match r {
            Some(f) => slot.current() == Some(*f),
            None => slot.current() is None,
        }),
{
    slot.provider()
}

/// The callback that pastes text.
pub fn paste_provider<F>(slot: &ProviderSlot<F>) -> (r: Option<&F>)
    ensures
        (match r {
            Some(f) => slot.current() == Some(*f),
            None => slot.current() is None,
        }),
{
    slot.provider()
}

/// The callback that reads clipboard text.
pub fn read_text_provider<F>(slot: &ProviderSlot<F>) -> (r: Option<&F>)
    ensures
        (match r {
            Some(f) => slot.current() == Some(*f),
            None => slot.current() is None,
        }),
{
    slot.provider()
}

/// The callback that saves a file.
pub fn save_file_provider<F>(slot: &ProviderSlot<F>) -> (r: Option<&F>)
    ensures
        (match r {
            Some(f) => slot.current() == Some(*f),
            None => slot.current() is None,
        }),
{
    slot.provider()
}

/// The callback that sends keys.
pub fn send_keys_provider<F>(slot: &ProviderSlot<F>) -> (r: Option<&F>)
    ensures
        (match r {
            Some(f) => slot.current() == Some(*f),
            None => slot.current() is None,
        }),
{
    slot.provider()
}

/// The callback that runs overlay commands.
pub fn overlay_provider<F>(slot: &ProviderSlot<F>) -> (r: Option<&F>)
    ensures
        (match r {
            Some(f) => slot.current() == Some(*f),
            None => slot.current() is None,
        }),
{
    slot.provider()
}

/// The callback that captures the screen.
pub fn capture_provider<F>(slot: &ProviderSlot<F>) -> (r: Option<&F>)
    ensures
        (match r {
            Some(f) => slot.current() == Some(*f),
            None => slot.current() is None,
        }),
{
    slot.provider()
}

/// Sets the callback that receives render requests made by scripts.
pub fn set_js_intent_callback<F>(slot: &mut ProviderSlot<F>, cb: F)
    ensures
        final(slot).current() == Some(cb),
{
    slot.register(cb);
}

/// Sets the callback that receives paste requests made by scripts.
pub fn set_clipboard_paste_callback<F>(slot: &mut ProviderSlot<F>, cb: F)
    ensures
        final(slot).current() == Some(cb),
{
    slot.register(cb);
}

} // verus!
