//! Locales: the directions a language may take across a page.
use crate::marshal::reply_uint;
use crate::ownership::{ObjectRef, ObjectRefView};
use crate::runtime::{ClassTag, Encoding, Handle, HandleView, Message, Value, ValueView};
use crate::traits::{instance_message, FromId, INSObject, PNSObject, ToId};
use crate::runtime::{message_to, no_args, one_arg, two_args, ReceiverView};
use crate::text::NSString;
use vstd::prelude::*;

verus! {

/// The directions that a language may take across a page of text.
#[derive(Debug, Clone, Copy, PartialEq, Eq, Structural)]
pub enum LanguageDirection {
    /// The direction of the language is unknown.
    Unknown,
    /// The language direction is from left to right.
    LeftToRight,
    /// The language direction is from right to left.
    RightToLeft,
    /// The language direction is from top to bottom.
    TopToBottom,
    /// The language direction is from bottom to top.
    BottomToTop,
}

impl LanguageDirection {
    /// The value the runtime's headers give this direction.
    pub open spec fn spec_raw(self) -> u64 {
        match self {
            LanguageDirection::Unknown => 0,
            LanguageDirection::LeftToRight => 1,
            LanguageDirection::RightToLeft => 2,
            LanguageDirection::TopToBottom => 3,
            LanguageDirection::BottomToTop => 4,
        }
    }

    /// The value the runtime's headers give this direction.
    pub fn raw_value(self) -> (r: u64)
        ensures
            r == self.spec_raw(),
    {
        match self {
            LanguageDirection::Unknown => 0,
            LanguageDirection::LeftToRight => 1,
            LanguageDirection::RightToLeft => 2,
            LanguageDirection::TopToBottom => 3,
            LanguageDirection::BottomToTop => 4,
        }
    }

    /// The direction with the value `raw`, or `None` where there is none.
    pub fn from_raw(raw: u64) -> (r: Option<LanguageDirection>)
        ensures
            r matches Some(d) ==> d.spec_raw() == raw,
            r.is_none() ==> forall|d: LanguageDirection| d.spec_raw() != raw,
    {
        match raw {
            0 => Some(LanguageDirection::Unknown),
            1 => Some(LanguageDirection::LeftToRight),
            2 => Some(LanguageDirection::RightToLeft),
            3 => Some(LanguageDirection::TopToBottom),
            4 => Some(LanguageDirection::BottomToTop),
            _ => None,
        }
    }
}

/// Information about a user's locale and formatting preferences.
pub struct NSLocale {
    ptr: ObjectRef,
}

impl ToId for NSLocale {
    closed spec fn id_view(&self) -> ObjectRefView {
        self.ptr@
    }

    fn as_id(&self) -> (r: &ObjectRef) {
        &self.ptr
    }

    fn to_id(self) -> (r: ObjectRef) {
        self.ptr
    }
}

impl FromId for NSLocale {
    fn from_id(obj: ObjectRef) -> (r: Self) {
        NSLocale { ptr: obj }
    }
}

impl PNSObject for NSLocale {
    closed spec fn self_view(&self) -> HandleView {
        self.ptr@.handle
    }

    open spec fn class_view() -> Seq<char> {
        "NSLocale"@
    }

    fn im_class() -> (c: ClassTag) {
        ClassTag::named("NSLocale")
    }

    fn im_self(&self) -> (h: Handle) {
        self.ptr.handle().duplicate()
    }
}

impl INSObject for NSLocale {

}

impl NSLocale {
    /// Asks the class for the user's current locale.
    pub fn current() -> (m: Message)
        ensures
            m@ == message_to(ReceiverView::Class("NSLocale"@), "currentLocale"@, Seq::empty(), Encoding::Object),
    {
        Message::to_class(&Self::im_class(), "currentLocale", no_args(), Encoding::Object)
    }

    /// Asks the class for a locale that tracks the user's current settings.
    pub fn auto_updating_current() -> (m: Message)
        ensures
            m@ == message_to(ReceiverView::Class("NSLocale"@), "autoupdatingCurrentLocale"@, Seq::empty(), Encoding::Object),
    {
        Message::to_class(&Self::im_class(), "autoupdatingCurrentLocale", no_args(), Encoding::Object)
    }

    /// Asks the class for the generic locale of the system.
    pub fn system() -> (m: Message)
        ensures
            m@ == message_to(ReceiverView::Class("NSLocale"@), "systemLocale"@, Seq::empty(), Encoding::Object),
    {
        Message::to_class(&Self::im_class(), "systemLocale", no_args(), Encoding::Object)
    }

    /// Asks the class for the identifiers of the available locales.
    pub fn available_locale_identifiers() -> (m: Message)
        ensures
            m@ == message_to(ReceiverView::Class("NSLocale"@), "availableLocaleIdentifiers"@, Seq::empty(), Encoding::Object),
    {
        Message::to_class(&Self::im_class(), "availableLocaleIdentifiers", no_args(), Encoding::Object)
    }

    /// Asks the class for the known ISO country codes.
    pub fn iso_country_codes() -> (m: Message)
        ensures
            m@ == message_to(ReceiverView::Class("NSLocale"@), "ISOCountryCodes"@, Seq::empty(), Encoding::Object),
    {
        Message::to_class(&Self::im_class(), "ISOCountryCodes", no_args(), Encoding::Object)
    }

    /// Asks the class for the known ISO language codes.
    pub fn iso_language_codes() -> (m: Message)
        ensures
            m@ == message_to(ReceiverView::Class("NSLocale"@), "ISOLanguageCodes"@, Seq::empty(), Encoding::Object),
    {
        Message::to_class(&Self::im_class(), "ISOLanguageCodes", no_args(), Encoding::Object)
    }

    /// Asks the class for the known ISO currency codes.
    pub fn iso_currency_codes() -> (m: Message)
        ensures
            m@ == message_to(ReceiverView::Class("NSLocale"@), "ISOCurrencyCodes"@, Seq::empty(), Encoding::Object),
    {
        Message::to_class(&Self::im_class(), "ISOCurrencyCodes", no_args(), Encoding::Object)
    }

    /// Asks the class for the commonly used ISO currency codes.
    pub fn common_iso_currency_codes() -> (m: Message)
        ensures
            m@ == message_to(ReceiverView::Class("NSLocale"@), "commonISOCurrencyCodes"@, Seq::empty(), Encoding::Object),
    {
        Message::to_class(&Self::im_class(), "commonISOCurrencyCodes", no_args(), Encoding::Object)
    }

    /// Asks the class for the user's preferred languages, in order.
    pub fn preferred_languages() -> (m: Message)
        ensures
            m@ == message_to(ReceiverView::Class("NSLocale"@), "preferredLanguages"@, Seq::empty(), Encoding::Object),
    {
        Message::to_class(&Self::im_class(), "preferredLanguages", no_args(), Encoding::Object)
    }

    /// Asks the class to allocate a locale, to be initialized next.
    pub fn allocate() -> (m: Message)
        ensures
            m@ == message_to(ReceiverView::Class("NSLocale"@), "alloc"@, Seq::empty(), Encoding::Object),
    {
        Message::to_class(&Self::im_class(), "alloc", no_args(), Encoding::Object)
    }

    /// Asks the allocated locale `allocated` to initialize itself for the
    /// identifier `locale_identifier`. The allocation's retain passes to the
    /// call, which hands a retained locale back.
    pub fn init_with_locale_identifier(allocated: ObjectRef, locale_identifier: &NSString) -> (m:
        Message)
        requires
            allocated@.owning,
        ensures
            m@ == instance_message(
                allocated@.handle,
                "initWithLocaleIdentifier:"@,
                seq![ValueView::Object(locale_identifier.self_view())],
                Encoding::Object,
            ),
    {
        let target = allocated.hand_over();
        Message::to_instance(
            &target,
            "initWithLocaleIdentifier:",
            one_arg(Value::Object(locale_identifier.im_self())),
            Encoding::Object,
        )
    }

    /// Asks for the locale's locale identifier.
    pub fn locale_identifier(&self) -> (m: Message)
        ensures
            m@ == instance_message(self.self_view(), "localeIdentifier"@, Seq::empty(), Encoding::Object),
    {
        Message::to_instance(&self.im_self(), "localeIdentifier", no_args(), Encoding::Object)
    }

    /// Asks for the locale's country code.
    pub fn country_code(&self) -> (m: Message)
        ensures
            m@ == instance_message(self.self_view(), "countryCode"@, Seq::empty(), Encoding::Object),
    {
        Message::to_instance(&self.im_self(), "countryCode", no_args(), Encoding::Object)
    }

    /// Asks for the locale's language code.
    pub fn language_code(&self) -> (m: Message)
        ensures
            m@ == instance_message(self.self_view(), "languageCode"@, Seq::empty(), Encoding::Object),
    {
        Message::to_instance(&self.im_self(), "languageCode", no_args(), Encoding::Object)
    }

    /// Asks for the locale's script code.
    pub fn script_code(&self) -> (m: Message)
        ensures
            m@ == instance_message(self.self_view(), "scriptCode"@, Seq::empty(), Encoding::Object),
    {
        Message::to_instance(&self.im_self(), "scriptCode", no_args(), Encoding::Object)
    }

    /// Asks for the locale's variant code.
    pub fn variant_code(&self) -> (m: Message)
        ensures
            m@ == instance_message(self.self_view(), "variantCode"@, Seq::empty(), Encoding::Object),
    {
        Message::to_instance(&self.im_self(), "variantCode", no_args(), Encoding::Object)
    }

    /// Asks for the locale's collation identifier.
    pub fn collation_identifier(&self) -> (m: Message)
        ensures
            m@ == instance_message(self.self_view(), "collationIdentifier"@, Seq::empty(), Encoding::Object),
    {
        Message::to_instance(&self.im_self(), "collationIdentifier", no_args(), Encoding::Object)
    }

    /// Asks for the locale's collator identifier.
    pub fn collator_identifier(&self) -> (m: Message)
        ensures
            m@ == instance_message(self.self_view(), "collatorIdentifier"@, Seq::empty(), Encoding::Object),
    {
        Message::to_instance(&self.im_self(), "collatorIdentifier", no_args(), Encoding::Object)
    }

    /// Asks for the locale's uses metric system.
    pub fn uses_metric_system(&self) -> (m: Message)
        ensures
            m@ == instance_message(self.self_view(), "usesMetricSystem"@, Seq::empty(), Encoding::Bool),
    {
        Message::to_instance(&self.im_self(), "usesMetricSystem", no_args(), Encoding::Bool)
    }

    /// Asks for the locale's decimal separator.
    pub fn decimal_separator(&self) -> (m: Message)
        ensures
            m@ == instance_message(self.self_view(), "decimalSeparator"@, Seq::empty(), Encoding::Object),
    {
        Message::to_instance(&self.im_self(), "decimalSeparator", no_args(), Encoding::Object)
    }

    /// Asks for the locale's grouping separator.
    pub fn grouping_separator(&self) -> (m: Message)
        ensures
            m@ == instance_message(self.self_view(), "groupingSeparator"@, Seq::empty(), Encoding::Object),
    {
        Message::to_instance(&self.im_self(), "groupingSeparator", no_args(), Encoding::Object)
    }

    /// Asks for the locale's currency code.
    pub fn currency_code(&self) -> (m: Message)
        ensures
            m@ == instance_message(self.self_view(), "currencyCode"@, Seq::empty(), Encoding::Object),
    {
        Message::to_instance(&self.im_self(), "currencyCode", no_args(), Encoding::Object)
    }

    /// Asks for the locale's currency symbol.
    pub fn currency_symbol(&self) -> (m: Message)
        ensures
            m@ == instance_message(self.self_view(), "currencySymbol"@, Seq::empty(), Encoding::Object),
    {
        Message::to_instance(&self.im_self(), "currencySymbol", no_args(), Encoding::Object)
    }

    /// Asks for the locale's calendar identifier.
    pub fn calendar_identifier(&self) -> (m: Message)
        ensures
            m@ == instance_message(self.self_view(), "calendarIdentifier"@, Seq::empty(), Encoding::Object),
    {
        Message::to_instance(&self.im_self(), "calendarIdentifier", no_args(), Encoding::Object)
    }

    /// Asks for the locale's quotation begin delimiter.
    pub fn quotation_begin_delimiter(&self) -> (m: Message)
        ensures
            m@ == instance_message(self.self_view(), "quotationBeginDelimiter"@, Seq::empty(), Encoding::Object),
    {
        Message::to_instance(&self.im_self(), "quotationBeginDelimiter", no_args(), Encoding::Object)
    }

    /// Asks for the locale's quotation end delimiter.
    pub fn quotation_end_delimiter(&self) -> (m: Message)
        ensures
            m@ == instance_message(self.self_view(), "quotationEndDelimiter"@, Seq::empty(), Encoding::Object),
    {
        Message::to_instance(&self.im_self(), "quotationEndDelimiter", no_args(), Encoding::Object)
    }

    /// Asks for the locale's alternate quotation begin delimiter.
    pub fn alternate_quotation_begin_delimiter(&self) -> (m: Message)
        ensures
            m@ == instance_message(self.self_view(), "alternateQuotationBeginDelimiter"@, Seq::empty(), Encoding::Object),
    {
        Message::to_instance(&self.im_self(), "alternateQuotationBeginDelimiter", no_args(), Encoding::Object)
    }

    /// Asks for the locale's alternate quotation end delimiter.
    pub fn alternate_quotation_end_delimiter(&self) -> (m: Message)
        ensures
            m@ == instance_message(self.self_view(), "alternateQuotationEndDelimiter"@, Seq::empty(), Encoding::Object),
    {
        Message::to_instance(&self.im_self(), "alternateQuotationEndDelimiter", no_args(), Encoding::Object)
    }

    /// Asks for the value of the locale component named by the string `key`;
    /// nil where there is none.
    pub fn object_for_key(&self, key: &NSString) -> (m: Message)
        ensures
            m@ == instance_message(
                self.self_view(),
                "objectForKey:"@,
                seq![ValueView::Object(key.self_view())],
                Encoding::Object,
            ),
    {
        Message::to_instance(
            &self.im_self(),
            "objectForKey:",
            one_arg(Value::Object(key.im_self())),
            Encoding::Object,
        )
    }

    /// Asks for the display name of `value` for the locale component `key`;
    /// nil where there is none.
    pub fn display_name_for_key_value(&self, key: &NSString, value: &NSString) -> (m: Message)
        ensures
            m@ == instance_message(
                self.self_view(),
                "displayNameForKey:value:"@,
                seq![ValueView::Object(key.self_view()), ValueView::Object(value.self_view())],
                Encoding::Object,
            ),
    {
        Message::to_instance(
            &self.im_self(),
            "displayNameForKey:value:",
            two_args(Value::Object(key.im_self()), Value::Object(value.im_self())),
            Encoding::Object,
        )
    }

    /// Asks the class for the direction of the characters of the language
    /// whose code is `iso_language_code`.
    pub fn character_direction_for_language(iso_language_code: &NSString) -> (m: Message)
        ensures
            m@ == message_to(
                ReceiverView::Class("NSLocale"@),
                "characterDirectionForLanguage:"@,
                seq![ValueView::Object(iso_language_code.self_view())],
                Encoding::UInt,
            ),
    {
        Message::to_class(
            &Self::im_class(),
            "characterDirectionForLanguage:",
            one_arg(Value::Object(iso_language_code.im_self())),
            Encoding::UInt,
        )
    }

    /// Asks the class for the direction of the lines of the language whose
    /// code is `iso_language_code`.
    pub fn line_direction_for_language(iso_language_code: &NSString) -> (m: Message)
        ensures
            m@ == message_to(
                ReceiverView::Class("NSLocale"@),
                "lineDirectionForLanguage:"@,
                seq![ValueView::Object(iso_language_code.self_view())],
                Encoding::UInt,
            ),
    {
        Message::to_class(
            &Self::im_class(),
            "lineDirectionForLanguage:",
            one_arg(Value::Object(iso_language_code.im_self())),
            Encoding::UInt,
        )
    }
}

/// The direction a reply to a direction request holds; `None` where the reply
/// is not an unsigned integer or names no direction.
pub fn direction_from_reply(reply: &Value) -> (r: Option<LanguageDirection>)
    ensures
        match reply@ {
            ValueView::UInt(u) => {
                &&& r matches Some(d) ==> d.spec_raw() == u
                &&& r.is_none() ==> forall|d: LanguageDirection| d.spec_raw() != u
            },
            _ => r.is_none(),
        },
{
    match reply_uint(reply) {
        Some(u) => LanguageDirection::from_raw(u),
        None => None,
    }
}

} // verus!
