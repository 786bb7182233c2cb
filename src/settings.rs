use vstd::prelude::*;

use crate::error::{ErrorHandler, ErrorType};
use crate::text::{parse_u32, parse_u32_spec, same_text};

verus! {

/// The two supported locales.
#[derive(Debug, Clone, Copy, PartialEq, Eq, Structural)]
pub enum Lang {
    Ukr,
    Eng,
}

impl Lang {
    /// The other locale.
    pub fn toggled(&self) -> (r: Lang)
        ensures
            r != *self,
    {
        match self {
            Lang::Ukr => Lang::Eng,
            Lang::Eng => Lang::Ukr,
        }
    }
}

/// Buttons of the settings view.
#[derive(Debug, Clone, Copy, PartialEq, Eq, Structural)]
pub enum SettingsKeyboard {
    Name,
    Images,
    MessageLimit,
    Lang,
    Back,
}

/// Key of a settings button: the variant's name.
pub open spec fn settings_key_text(k: SettingsKeyboard) -> Seq<char> {
    match k {
        SettingsKeyboard::Name => "Name"@,
        SettingsKeyboard::Images => "Images"@,
        SettingsKeyboard::MessageLimit => "MessageLimit"@,
        SettingsKeyboard::Lang => "Lang"@,
        SettingsKeyboard::Back => "Back"@,
    }
}

/// The settings buttons in display order.
pub open spec fn settings_keys() -> Seq<SettingsKeyboard> {
    seq![
        SettingsKeyboard::Name,
        SettingsKeyboard::Images,
        SettingsKeyboard::MessageLimit,
        SettingsKeyboard::Lang,
        SettingsKeyboard::Back,
    ]
}

/// Different settings buttons have different keys.
pub proof fn lemma_settings_key_text_injective()
    ensures
        forall|a: SettingsKeyboard, b: SettingsKeyboard|
            #[trigger] settings_key_text(a) == #[trigger] settings_key_text(b) ==> a == b,
{
    reveal_strlit("Name");
    reveal_strlit("Images");
    reveal_strlit("MessageLimit");
    reveal_strlit("Lang");
    reveal_strlit("Back");
    assert forall|a: SettingsKeyboard, b: SettingsKeyboard|
        #[trigger] settings_key_text(a) == #[trigger] settings_key_text(b) implies a == b by {
        if settings_key_text(a) == settings_key_text(b) {
            assert(settings_key_text(a).len() == settings_key_text(b).len());
            assert(settings_key_text(a)[0] == settings_key_text(b)[0]);
        }
    }
}

impl SettingsKeyboard {
    /// Every settings button, in display order.
    pub fn as_array() -> (r: Vec<SettingsKeyboard>)
        ensures
            r@ == settings_keys(),
    {
        vec![
            SettingsKeyboard::Name,
            SettingsKeyboard::Images,
            SettingsKeyboard::MessageLimit,
            SettingsKeyboard::Lang,
            SettingsKeyboard::Back,
        ]
    }

    /// The button's key.
    pub fn as_str(&self) -> (r: &'static str)
        ensures
            r@ == settings_key_text(*self),
    {
        match self {
            SettingsKeyboard::Name => "Name",
            SettingsKeyboard::Images => "Images",
            SettingsKeyboard::MessageLimit => "MessageLimit",
            SettingsKeyboard::Lang => "Lang",
            SettingsKeyboard::Back => "Back",
        }
    }

    /// The button whose key is `value`; a parse error for any other text.
    pub fn try_from(value: &str) -> (r: Result<SettingsKeyboard, ErrorHandler>)
        ensures
            r matches Ok(k) ==> value@ == settings_key_text(k),
            r is Err <==> (forall|k: SettingsKeyboard| value@ != #[trigger] settings_key_text(k)),
            r matches Err(e) ==> e.ty == ErrorType::Parse,
    {
        let keys = SettingsKeyboard::as_array();
        let mut i: usize = 0;
        while i < keys.len()
            invariant
                keys@ == settings_keys(),
                0 <= i <= keys.len(),
                forall|j: int| 0 <= j < i ==> value@ != #[trigger] settings_key_text(keys@[j]),
            decreases keys.len() - i,
        {
            if same_text(keys[i].as_str(), value) {
                return Ok(keys[i]);
            }
            i = i + 1;
        }
        assert forall|k: SettingsKeyboard| value@ != #[trigger] settings_key_text(k) by {
            match k {
                SettingsKeyboard::Name => assert(settings_key_text(keys@[0]) == settings_key_text(k)),
                SettingsKeyboard::Images => assert(settings_key_text(keys@[1]) == settings_key_text(k)),
                SettingsKeyboard::MessageLimit => assert(settings_key_text(keys@[2]) == settings_key_text(k)),
                SettingsKeyboard::Lang => assert(settings_key_text(keys@[3]) == settings_key_text(k)),
                SettingsKeyboard::Back => assert(settings_key_text(keys@[4]) == settings_key_text(k)),
            }
        }
        Err(ErrorHandler {
            msg: "Wrong argument to parse enum Settings Keyboard".to_string(),
            ty: ErrorType::Parse,
        })
    }
}

/// Smallest accepted message limit.
pub const MIN_LIMIT: u32 = 3;
/// Largest accepted message limit.
pub const MAX_LIMIT: u32 = 80;
/// Message limit of fresh settings.
pub const DEFAULT_LIMIT: u32 = 10;

/// Whether `n` is an accepted message limit.
pub open spec fn limit_in_range(n: int) -> bool {
    MIN_LIMIT <= n <= MAX_LIMIT
}

/// Whether `n` is an accepted message limit.
pub fn validate_limit(n: u32) -> (r: bool)
    ensures
        r == limit_in_range(n as int),
{
    MIN_LIMIT <= n && n <= MAX_LIMIT
}

/// Why a settings update was refused; the settings stay as they were.
#[derive(Debug, Clone, Copy, PartialEq, Eq, Structural)]
pub enum SettingsRejection {
    /// The message limit is not a whole number.
    NotANumber,
    /// The message limit is a number outside `[MIN_LIMIT, MAX_LIMIT]`.
    OutOfRange,
    /// The display name is empty.
    EmptyName,
}

/// Per-user preferences.
#[derive(Debug, Clone)]
pub struct UserSettings {
    pub name: Option<String>,
    pub send_image: bool,
    pub limit_of_messages: u32,
    pub lang: Lang,
}

impl UserSettings {
    /// The message limit is in range.
    pub open spec fn wf(&self) -> bool {
        limit_in_range(self.limit_of_messages as int)
    }

    /// Fresh settings: a greeting name, images on, ten messages, Ukrainian.
    pub fn default() -> (r: UserSettings)
        ensures
            r.wf(),
            r.name matches Some(n) && n@ == "Dear"@,
            r.send_image,
            r.limit_of_messages == DEFAULT_LIMIT,
            r.lang == Lang::Ukr,
    {
        UserSettings {
            name: Some("Dear".to_string()),
            send_image: true,
            limit_of_messages: DEFAULT_LIMIT,
            lang: Lang::Ukr,
        }
    }

    /// Turns image delivery on or off.
    pub fn toggle_images(&mut self)
        ensures
            old(self).wf() ==> final(self).wf(),
            final(self).send_image == !old(self).send_image,
            final(self).name == old(self).name,
            final(self).limit_of_messages == old(self).limit_of_messages,
            final(self).lang == old(self).lang,
    {
        self.send_image = !self.send_image;
    }

    /// Switches to the other locale.
    pub fn toggle_lang(&mut self)
        ensures
            old(self).wf() ==> final(self).wf(),
            final(self).lang != old(self).lang,
            final(self).name == old(self).name,
            final(self).send_image == old(self).send_image,
            final(self).limit_of_messages == old(self).limit_of_messages,
    {
        self.lang = self.lang.toggled();
    }

    /// Sets the display name to a non-empty text, taken verbatim.
    pub fn set_name(&mut self, text: &str) -> (r: Result<(), SettingsRejection>)
        ensures
            r is Ok <==> text@.len() > 0,
            r is Ok ==> (final(self).name matches Some(n) && n@ == text@),
            old(self).wf() ==> final(self).wf(),
            r is Ok ==> final(self).send_image == old(self).send_image
                && final(self).limit_of_messages == old(self).limit_of_messages
                && final(self).lang == old(self).lang,
            r matches Err(e) ==> e == SettingsRejection::EmptyName && *final(self) == *old(self),
    {
        if text.unicode_len() == 0 {
            return Err(SettingsRejection::EmptyName);
        }
        self.name = Some(text.to_owned());
        Ok(())
    }

    /// Sets the message limit from a message text: accepted when the text is a
    /// whole number in `[MIN_LIMIT, MAX_LIMIT]`; otherwise nothing changes.
    pub fn set_limit(&mut self, text: &str) -> (r: Result<(), SettingsRejection>)
        ensures
            r is Ok <==> (parse_u32_spec(text@) matches Some(n) && limit_in_range(n as int)),
            r is Ok ==> Some(final(self).limit_of_messages) == parse_u32_spec(text@)
                && final(self).name == old(self).name
                && final(self).send_image == old(self).send_image
                && final(self).lang == old(self).lang,
            r == Err::<(), SettingsRejection>(SettingsRejection::NotANumber)
                <==> parse_u32_spec(text@) is None,
            r is Err ==> *final(self) == *old(self),
            old(self).wf() ==> final(self).wf(),
            r matches Err(e) ==> e != SettingsRejection::EmptyName,
    {
        match parse_u32(text) {
            None => Err(SettingsRejection::NotANumber),
            Some(n) => {
                if validate_limit(n) {
                    self.limit_of_messages = n;
                    Ok(())
                } else {
                    Err(SettingsRejection::OutOfRange)
                }
            }
        }
    }
}

} // verus!
