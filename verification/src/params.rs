use crate::error::WaymoError;
use crate::text::{has_terminator, terminator_free, NativeText};
use vstd::pervasive::unreached;
use vstd::prelude::*;
use vstd::utf8::encode_utf8;

verus! {

/// What a configuration says: the settings, with the layout as the bytes that
/// the worker reads.
pub struct EloopParamsView {
    pub max_commands: u32,
    pub kbd_layout: Seq<u8>,
    pub action_cooldown_ms: u32,
}

/// The settings a worker is created with. Once built it does not change, and
/// its layout is known to have a native form.
#[derive(Debug)]
pub struct EloopParams {
    max_commands: u32,
    kbd_layout: NativeText,
    action_cooldown_ms: u32,
}

impl View for EloopParams {
    type V = EloopParamsView;

    closed spec fn view(&self) -> EloopParamsView {
        EloopParamsView {
            max_commands: self.max_commands,
            kbd_layout: self.kbd_layout@,
            action_cooldown_ms: self.action_cooldown_ms,
        }
    }
}

/// The settings of a builder: as those of a configuration, with the layout
/// still a text that nobody has looked into.
pub struct EloopParamsBuilderView {
    pub max_commands: u32,
    pub kbd_layout: Seq<char>,
    pub action_cooldown_ms: u32,
}

/// The settings that a builder starts with: up to 50 queued commands, the
/// layout "us", no cooldown between actions.
pub open spec fn default_settings() -> EloopParamsBuilderView {
    EloopParamsBuilderView { max_commands: 50, kbd_layout: "us"@, action_cooldown_ms: 0 }
}

/// The configuration that settings stand for, where their layout has a native
/// form.
pub open spec fn built(settings: EloopParamsBuilderView) -> EloopParamsView {
    EloopParamsView {
        max_commands: settings.max_commands,
        kbd_layout: encode_utf8(settings.kbd_layout),
        action_cooldown_ms: settings.action_cooldown_ms,
    }
}

/// The default layout holds no terminator.
pub proof fn lemma_default_layout_is_native()
    ensures
        !has_terminator(default_settings().kbd_layout),
{
    reveal_strlit("us");
    let layout = "us"@;
    assert(layout.len() == 2);
    assert(layout[0] == 'u' && layout[1] == 's');
    assert forall|i: int| 0 <= i < layout.len() implies layout[i] != '\0' by {}
}

impl EloopParams {
    /// Starts a configuration from the defaults.
    pub fn new() -> (builder: EloopParamsBuilder)
        ensures
            builder@ == default_settings(),
    {
        EloopParamsBuilder::new()
    }

    /// The most commands that the worker keeps queued.
    pub fn max_commands(&self) -> (count: u32)
        ensures
            count == self@.max_commands,
    {
        self.max_commands
    }

    /// The keyboard layout, in its native form.
    pub fn kbd_layout(&self) -> (layout: &NativeText)
        ensures
            layout@ == self@.kbd_layout,
    {
        &self.kbd_layout
    }

    /// The pause that the worker keeps between two actions, in milliseconds.
    pub fn action_cooldown_ms(&self) -> (ms: u32)
        ensures
            ms == self@.action_cooldown_ms,
    {
        self.action_cooldown_ms
    }
}

impl Default for EloopParams {
    /// The configuration built from the defaults.
    fn default() -> (params: EloopParams)
        ensures
            params@ == built(default_settings()),
    {
        proof {
            lemma_default_layout_is_native();
        }
        match EloopParamsBuilder::new().build() {
            Ok(params) => params,
            Err(_) => unreached(),
        }
    }
}

/// Collects the settings of a configuration, one call per setting. Each call
/// takes the builder and gives it back with that one setting replaced.
#[derive(Debug)]
pub struct EloopParamsBuilder {
    max_commands: u32,
    kbd_layout: String,
    action_cooldown_ms: u32,
}

impl View for EloopParamsBuilder {
    type V = EloopParamsBuilderView;

    closed spec fn view(&self) -> EloopParamsBuilderView {
        EloopParamsBuilderView {
            max_commands: self.max_commands,
            kbd_layout: self.kbd_layout@,
            action_cooldown_ms: self.action_cooldown_ms,
        }
    }
}

impl EloopParamsBuilder {
    /// A builder with the default settings.
    pub fn new() -> (builder: Self)
        ensures
            builder@ == default_settings(),
    {
        EloopParamsBuilder {
            max_commands: 50,
            kbd_layout: "us".to_owned(),
            action_cooldown_ms: 0,
        }
    }

    /// Sets the most commands that the worker keeps queued.
    pub fn max_commands(self, count: u32) -> (builder: Self)
        ensures
            builder@ == (EloopParamsBuilderView { max_commands: count, ..self@ }),
    {
        EloopParamsBuilder { max_commands: count, ..self }
    }

    /// Sets the keyboard layout. Any text is taken here; `build` is where it
    /// is looked into.
    pub fn kbd_layout(self, layout: &str) -> (builder: Self)
        ensures
            builder@ == (EloopParamsBuilderView { kbd_layout: layout@, ..self@ }),
    {
        EloopParamsBuilder { kbd_layout: layout.to_owned(), ..self }
    }

    /// Sets the pause between two actions, in milliseconds.
    pub fn action_cooldown_ms(self, ms: u32) -> (builder: Self)
        ensures
            builder@ == (EloopParamsBuilderView { action_cooldown_ms: ms, ..self@ }),
    {
        EloopParamsBuilder { action_cooldown_ms: ms, ..self }
    }

    /// Turns the settings into a configuration.
    ///
    /// Fails, with `InvalidConfigurationText`, exactly when the layout holds a
    /// terminator character, and then nothing is built. Otherwise the
    /// configuration holds the settings as they were given, the layout as its
    /// UTF-8 bytes.
    pub fn build(self) -> (result: Result<EloopParams, WaymoError>)
        ensures
            has_terminator(self@.kbd_layout) <==> result is Err,
            result matches Err(e) ==> e == WaymoError::InvalidConfigurationText,
            result matches Ok(params) ==> params@ == built(self@) && terminator_free(
                params@.kbd_layout,
            ),
    {
        match NativeText::new(self.kbd_layout.as_str()) {
            Ok(kbd_layout) => Ok(
                EloopParams {
                    max_commands: self.max_commands,
                    kbd_layout,
                    action_cooldown_ms: self.action_cooldown_ms,
                },
            ),
            Err(e) => Err(e),
        }
    }
}

} // verus!
