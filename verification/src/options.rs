//! The window configuration: its defaults, and how a list of named options
//! overrides them.

use crate::pattern::{pattern_match, search};
use crate::text::{
    copy_range, decimal_in, decimal_value, all_digits, find_sep, is_digit, is_decimal, nth_piece,
    parse_i32_in, piece_end, piece_start, spec_parse_i32, lemma_find_sep_is,
};
use vstd::prelude::*;
use vstd::string::StringExecFns;
use vstd::utf8::encode_utf8;

verus! {

/// The literal on the right of an option.
pub enum OptionValue {
    /// A string literal, with its content.
    Text(String),
    /// Any other literal.
    Other,
}

/// One entry of the option list attached to an entry point.
pub enum OptionItem {
    /// `key = literal`.
    NameValue { key: String, value: OptionValue },
    /// Anything that is not a key with a literal.
    Other,
}

/// A clear color: four decimal numbers (red, green, blue, alpha), each kept as
/// the text it was written in.
pub struct Color {
    pub r: Vec<u8>,
    pub g: Vec<u8>,
    pub b: Vec<u8>,
    pub a: Vec<u8>,
}

/// The configuration of an application window, every field populated.
pub struct Config {
    pub title: String,
    pub width: i32,
    pub height: i32,
    pub background_color: Color,
}

/// Why an option list was rejected.
pub enum ConfigError {
    /// `title` was given something other than a string literal.
    TitleNotText,
    /// `window` was given something other than a string literal.
    WindowNotText,
    /// `window` does not read `WIDTHxHEIGHT`.
    WindowFormat,
    /// `background_color` was given something other than a string literal.
    ColorNotText,
    /// `background_color` does not read as four decimal numbers.
    ColorFormat,
    /// The key is none of the known ones.
    UnknownAttribute { name: String },
    /// The entry is not a key with a literal.
    NotUnderstood,
}

/// Mathematical content of a [`Config`].
pub struct ConfigView {
    pub title: Seq<char>,
    pub width: i32,
    pub height: i32,
    pub color: Seq<Seq<u8>>,
}

/// Mathematical content of a [`ConfigError`].
pub enum ConfigErrorView {
    TitleNotText,
    WindowNotText,
    WindowFormat,
    ColorNotText,
    ColorFormat,
    UnknownAttribute { name: Seq<char> },
    NotUnderstood,
}

impl View for Color {
    type V = Seq<Seq<u8>>;

    open spec fn view(&self) -> Seq<Seq<u8>> {
        seq![self.r@, self.g@, self.b@, self.a@]
    }
}

impl Color {
    /// Each component is a decimal number.
    pub open spec fn wf(&self) -> bool {
        is_decimal(self.r@) && is_decimal(self.g@) && is_decimal(self.b@) && is_decimal(self.a@)
    }
}

impl View for Config {
    type V = ConfigView;

    open spec fn view(&self) -> ConfigView {
        ConfigView {
            title: self.title@,
            width: self.width,
            height: self.height,
            color: self.background_color@,
        }
    }
}

impl Config {
    /// The color is well formed.
    pub open spec fn wf(&self) -> bool {
        self.background_color.wf()
    }
}

impl View for ConfigError {
    type V = ConfigErrorView;

    open spec fn view(&self) -> ConfigErrorView {
        match self {
            ConfigError::TitleNotText => ConfigErrorView::TitleNotText,
            ConfigError::WindowNotText => ConfigErrorView::WindowNotText,
            ConfigError::WindowFormat => ConfigErrorView::WindowFormat,
            ConfigError::ColorNotText => ConfigErrorView::ColorNotText,
            ConfigError::ColorFormat => ConfigErrorView::ColorFormat,
            ConfigError::UnknownAttribute { name } => ConfigErrorView::UnknownAttribute {
                name: name@,
            },
            ConfigError::NotUnderstood => ConfigErrorView::NotUnderstood,
        }
    }
}

/// Mathematical content of a parse outcome.
pub open spec fn outcome_view(r: Result<Config, ConfigError>) -> Result<
    ConfigView,
    ConfigErrorView,
> {
    match r {
        Ok(c) => Ok(c@),
        Err(e) => Err(e@),
    }
}

/// The expression that a `window` value has to match.
pub open spec fn window_pattern() -> Seq<char> {
    "\\d+x\\d+"@
}

/// The expression that a `background_color` value has to match.
pub open spec fn color_pattern() -> Seq<char> {
    "(\\d+(\\.\\d+)? ){3}(\\d+(\\.\\d+)?)"@
}

/// A zero written as a decimal number.
pub open spec fn zero_text() -> Seq<u8> {
    seq![48u8, 46u8, 48u8]
}

/// A one written as a decimal number.
pub open spec fn one_text() -> Seq<u8> {
    seq![49u8, 46u8, 48u8]
}

/// Opaque black.
pub open spec fn default_color() -> Seq<Seq<u8>> {
    seq![zero_text(), zero_text(), zero_text(), one_text()]
}

/// The configuration that holds where no option says otherwise.
pub open spec fn default_config() -> ConfigView {
    ConfigView { title: "OpenGL Application"@, width: 900, height: 700, color: default_color() }
}

/// Width and height read from the text of a `window` value, given the outcome
/// of matching it against [`window_pattern`]: the first two pieces between
/// `x`, each a 32-bit integer.
pub open spec fn spec_window(matched: Option<bool>, text: Seq<u8>) -> Option<(i32, i32)> {
    if matched != Some(true) {
        None
    } else {
        match (nth_piece(text, 120, 0), nth_piece(text, 120, 1)) {
            (Some(first), Some(second)) => match (spec_parse_i32(first), spec_parse_i32(second)) {
                (Some(w), Some(h)) => Some((w, h)),
                _ => None,
            },
            _ => None,
        }
    }
}

/// The four components read from the text of a `background_color` value, given
/// the outcome of matching it against [`color_pattern`]: the first four pieces
/// between spaces, each a decimal number.
pub open spec fn spec_color(matched: Option<bool>, text: Seq<u8>) -> Option<Seq<Seq<u8>>> {
    if matched != Some(true) {
        None
    } else {
        match (
            nth_piece(text, 32, 0),
            nth_piece(text, 32, 1),
            nth_piece(text, 32, 2),
            nth_piece(text, 32, 3),
        ) {
            (Some(r), Some(g), Some(b), Some(a)) => if is_decimal(r) && is_decimal(g)
                && is_decimal(b) && is_decimal(a) {
                Some(seq![r, g, b, a])
            } else {
                None
            },
            _ => None,
        }
    }
}

/// The configuration after one option, or the reason the option is rejected.
pub open spec fn spec_apply(cfg: ConfigView, item: OptionItem) -> Result<
    ConfigView,
    ConfigErrorView,
> {
    match item {
        OptionItem::Other => Err(ConfigErrorView::NotUnderstood),
        OptionItem::NameValue { key, value } => if key@ == "title"@ {
            match value {
                OptionValue::Text(t) => Ok(ConfigView { title: t@, ..cfg }),
                OptionValue::Other => Err(ConfigErrorView::TitleNotText),
            }
        } else if key@ == "window"@ {
            match value {
                OptionValue::Text(t) => match spec_window(
                    pattern_match(window_pattern(), encode_utf8(t@)),
                    encode_utf8(t@),
                ) {
                    Some((w, h)) => Ok(ConfigView { width: w, height: h, ..cfg }),
                    None => Err(ConfigErrorView::WindowFormat),
                },
                OptionValue::Other => Err(ConfigErrorView::WindowNotText),
            }
        } else if key@ == "background_color"@ {
            match value {
                OptionValue::Text(t) => match spec_color(
                    pattern_match(color_pattern(), encode_utf8(t@)),
                    encode_utf8(t@),
                ) {
                    Some(c) => Ok(ConfigView { color: c, ..cfg }),
                    None => Err(ConfigErrorView::ColorFormat),
                },
                OptionValue::Other => Err(ConfigErrorView::ColorNotText),
            }
        } else {
            Err(ConfigErrorView::UnknownAttribute { name: key@ })
        },
    }
}

/// The configuration after a list of options applied in order, or the reason
/// the first offending option is rejected.
pub open spec fn spec_apply_all(cfg: ConfigView, items: Seq<OptionItem>) -> Result<
    ConfigView,
    ConfigErrorView,
>
    decreases items.len(),
{
    if items.len() == 0 {
        Ok(cfg)
    } else {
        match spec_apply(cfg, items[0]) {
            Ok(next) => spec_apply_all(next, items.drop_first()),
            Err(e) => Err(e),
        }
    }
}

/// What a rejection says to the author of the options.
pub open spec fn spec_message(e: ConfigErrorView) -> Seq<char> {
    match e {
        ConfigErrorView::TitleNotText => "Expected string literal for title"@,
        ConfigErrorView::WindowNotText => "Expected string for window options"@,
        ConfigErrorView::WindowFormat => "Expected format: WIDTHxHEIGHT"@,
        ConfigErrorView::ColorNotText => "Expected string for background_color options"@,
        ConfigErrorView::ColorFormat => "Expected format: R G B A"@,
        ConfigErrorView::UnknownAttribute { name } => "Unknown attribute: "@ + name,
        ConfigErrorView::NotUnderstood => "Could not understand attribute"@,
    }
}

impl ConfigError {
    /// What the rejection says to the author of the options.
    pub fn message(&self) -> (text: String)
        ensures
            text@ == spec_message(self@),
    {
        match self {
            ConfigError::TitleNotText => "Expected string literal for title".to_owned(),
            ConfigError::WindowNotText => "Expected string for window options".to_owned(),
            ConfigError::WindowFormat => "Expected format: WIDTHxHEIGHT".to_owned(),
            ConfigError::ColorNotText => "Expected string for background_color options".to_owned(),
            ConfigError::ColorFormat => "Expected format: R G B A".to_owned(),
            ConfigError::UnknownAttribute { name } => "Unknown attribute: ".to_owned().concat(
                name.as_str(),
            ),
            ConfigError::NotUnderstood => "Could not understand attribute".to_owned(),
        }
    }
}

/// Tells whether `key` is spelled `name`.
fn key_is(key: &String, name: &str) -> (r: bool)
    ensures
        r == (key@ == name@),
{
    let owned = name.to_owned();
    *key == owned
}

impl Color {
    /// Opaque black.
    pub fn black() -> (c: Color)
        ensures
            c@ == default_color(),
            c.wf(),
    {
        let c = Color {
            r: vec![48u8, 46u8, 48u8],
            g: vec![48u8, 46u8, 48u8],
            b: vec![48u8, 46u8, 48u8],
            a: vec![49u8, 46u8, 48u8],
        };
        proof {
            assert(c.r@ =~= zero_text());
            assert(c.g@ =~= zero_text());
            assert(c.b@ =~= zero_text());
            assert(c.a@ =~= one_text());
            lemma_default_color_is_decimal();
        }
        c
    }
}

/// The default components are decimal numbers.
pub proof fn lemma_default_color_is_decimal()
    ensures
        is_decimal(zero_text()),
        is_decimal(one_text()),
{
    reveal_with_fuel(find_sep, 3);
    let z = zero_text();
    let o = one_text();
    assert(find_sep(z, 46, 0) == 1);
    assert(find_sep(o, 46, 0) == 1);
    assert(all_digits(z.subrange(0, 1)));
    assert(all_digits(z.subrange(2, 3)));
    assert(all_digits(o.subrange(0, 1)));
    assert(all_digits(o.subrange(2, 3)));
}

impl Config {
    /// The configuration that holds where no option says otherwise.
    pub fn defaults() -> (c: Config)
        ensures
            c@ == default_config(),
            c.wf(),
    {
        Config {
            title: "OpenGL Application".to_owned(),
            width: 900,
            height: 700,
            background_color: Color::black(),
        }
    }
}

/// Reads width and height from the text of a `window` value, given the outcome
/// of matching that text against the window pattern.
pub fn window_from_match(matched: Option<bool>, text: &str) -> (r: Option<(i32, i32)>)
    ensures
        r == spec_window(matched, encode_utf8(text@)),
{
    let hit = match matched {
        Some(b) => b,
        None => false,
    };
    if !hit {
        return None;
    }
    let s = text.as_bytes();
    proof {
        reveal_with_fuel(piece_start, 2);
    }
    let e0 = piece_end(s, 120, 0);
    if e0 == s.len() {
        return None;
    }
    let e1 = piece_end(s, 120, e0 + 1);
    match (parse_i32_in(s, 0, e0), parse_i32_in(s, e0 + 1, e1)) {
        (Some(w), Some(h)) => Some((w, h)),
        _ => None,
    }
}

/// Reads the four components from the text of a `background_color` value,
/// given the outcome of matching that text against the color pattern.
pub fn color_from_match(matched: Option<bool>, text: &str) -> (r: Option<Color>)
    ensures
        match r {
            Some(c) => spec_color(matched, encode_utf8(text@)) == Some(c@) && c.wf(),
            None => spec_color(matched, encode_utf8(text@)).is_none(),
        },
{
    let hit = match matched {
        Some(b) => b,
        None => false,
    };
    if !hit {
        return None;
    }
    let s = text.as_bytes();
    proof {
        reveal_with_fuel(piece_start, 4);
    }
    let e0 = piece_end(s, 32, 0);
    if e0 == s.len() {
        return None;
    }
    let e1 = piece_end(s, 32, e0 + 1);
    if e1 == s.len() {
        return None;
    }
    let e2 = piece_end(s, 32, e1 + 1);
    if e2 == s.len() {
        return None;
    }
    let e3 = piece_end(s, 32, e2 + 1);
    if decimal_in(s, 0, e0) && decimal_in(s, e0 + 1, e1) && decimal_in(s, e1 + 1, e2)
        && decimal_in(s, e2 + 1, e3) {
        Some(
            Color {
                r: copy_range(s, 0, e0),
                g: copy_range(s, e0 + 1, e1),
                b: copy_range(s, e1 + 1, e2),
                a: copy_range(s, e2 + 1, e3),
            },
        )
    } else {
        None
    }
}

/// Reads width and height from a `window` value.
pub fn parse_window(text: &str) -> (r: Option<(i32, i32)>)
    ensures
        r == spec_window(pattern_match(window_pattern(), encode_utf8(text@)), encode_utf8(text@)),
{
    let matched = search("\\d+x\\d+", text.as_bytes());
    window_from_match(matched, text)
}

/// Reads the four components from a `background_color` value.
pub fn parse_color(text: &str) -> (r: Option<Color>)
    ensures
        match r {
            Some(c) => spec_color(
                pattern_match(color_pattern(), encode_utf8(text@)),
                encode_utf8(text@),
            ) == Some(c@) && c.wf(),
            None => spec_color(
                pattern_match(color_pattern(), encode_utf8(text@)),
                encode_utf8(text@),
            ).is_none(),
        },
{
    let matched = search("(\\d+(\\.\\d+)? ){3}(\\d+(\\.\\d+)?)", text.as_bytes());
    color_from_match(matched, text)
}

/// Applies one option to `cfg`. On rejection `cfg` is left as it was.
pub fn apply_option(cfg: &mut Config, item: &OptionItem) -> (r: Result<(), ConfigError>)
    ensures
        old(cfg).wf() ==> final(cfg).wf(),
        match r {
            Ok(_) => spec_apply(old(cfg)@, *item) == Ok::<ConfigView, ConfigErrorView>(
                final(cfg)@,
            ),
            Err(e) => spec_apply(old(cfg)@, *item) == Err::<ConfigView, ConfigErrorView>(e@)
                && *final(cfg) == *old(cfg),
        },
{
    match item {
        OptionItem::Other => Err(ConfigError::NotUnderstood),
        OptionItem::NameValue { key, value } => {
            if key_is(key, "title") {
                match value {
                    OptionValue::Text(t) => {
                        cfg.title = t.clone();
                        Ok(())
                    },
                    OptionValue::Other => Err(ConfigError::TitleNotText),
                }
            } else if key_is(key, "window") {
                match value {
                    OptionValue::Text(t) => match parse_window(t.as_str()) {
                        Some((w, h)) => {
                            cfg.width = w;
                            cfg.height = h;
                            Ok(())
                        },
                        None => Err(ConfigError::WindowFormat),
                    },
                    OptionValue::Other => Err(ConfigError::WindowNotText),
                }
            } else if key_is(key, "background_color") {
                match value {
                    OptionValue::Text(t) => match parse_color(t.as_str()) {
                        Some(c) => {
                            cfg.background_color = c;
                            Ok(())
                        },
                        None => Err(ConfigError::ColorFormat),
                    },
                    OptionValue::Other => Err(ConfigError::ColorNotText),
                }
            } else {
                Err(ConfigError::UnknownAttribute { name: key.clone() })
            }
        },
    }
}

/// Builds the configuration that a list of options describes: the defaults,
/// overridden by each option in turn. The first option that is rejected
/// decides the error.
pub fn parse_options(items: &Vec<OptionItem>) -> (r: Result<Config, ConfigError>)
    ensures
        outcome_view(r) == spec_apply_all(default_config(), items@),
        r matches Ok(c) ==> c.wf(),
{
    let mut cfg = Config::defaults();
    let mut i: usize = 0;
    assert(items@.subrange(0, items@.len() as int) == items@);
    while i < items.len()
        invariant
            0 <= i <= items@.len(),
            cfg.wf(),
            spec_apply_all(default_config(), items@) == spec_apply_all(
                cfg@,
                items@.subrange(i as int, items@.len() as int),
            ),
        decreases items@.len() - i,
    {
        let ghost rest = items@.subrange(i as int, items@.len() as int);
        proof {
            assert(rest[0] == items@[i as int]);
            assert(rest.drop_first() == items@.subrange(i + 1, items@.len() as int));
        }
        match apply_option(&mut cfg, &items[i]) {
            Ok(_) => {},
            Err(e) => {
                return Err(e);
            },
        }
        i += 1;
    }
    Ok(cfg)
}

/// The text `digits x digits`, with both numbers within 32 bits, reads as
/// exactly those two numbers once it has matched the window pattern.
pub proof fn lemma_window_reads_components(first: Seq<u8>, second: Seq<u8>)
    requires
        first.len() > 0,
        second.len() > 0,
        all_digits(first),
        all_digits(second),
        decimal_value(first) <= i32::MAX,
        decimal_value(second) <= i32::MAX,
    ensures
        spec_window(Some(true), first + seq![120u8] + second) == Some(
            (decimal_value(first) as i32, decimal_value(second) as i32),
        ),
{
    let text = first + seq![120u8] + second;
    let cut = first.len() as int;
    assert forall|j: int| 0 <= j < cut implies text[j] != 120u8 by {
        assert(text[j] == first[j]);
    }
    assert(text[cut] == 120u8);
    lemma_find_sep_is(text, 120, 0, cut);
    assert forall|j: int| cut + 1 <= j < text.len() implies text[j] != 120u8 by {
        assert(text[j] == second[j - cut - 1]);
    }
    lemma_find_sep_is(text, 120, cut + 1, text.len() as int);
    reveal_with_fuel(piece_start, 2);
    assert(piece_start(text, 120, 1) == cut + 1);
    assert(text.subrange(0, cut) =~= first);
    assert(text.subrange(cut + 1, text.len() as int) =~= second);
    assert(nth_piece(text, 120, 0) == Some(first));
    assert(nth_piece(text, 120, 1) == Some(second));
    assert(is_digit(first[0]));
    assert(is_digit(second[0]));
}

/// A `window` option whose text is `digits x digits`, both numbers within 32
/// bits, and matches the window pattern sets width and height to the two
/// numbers and leaves the rest of the configuration alone.
pub proof fn lemma_window_option_sets_size(
    cfg: ConfigView,
    key: String,
    text: String,
    first: Seq<u8>,
    second: Seq<u8>,
)
    requires
        key@ == "window"@,
        encode_utf8(text@) == first + seq![120u8] + second,
        pattern_match(window_pattern(), encode_utf8(text@)) == Some(true),
        first.len() > 0,
        second.len() > 0,
        all_digits(first),
        all_digits(second),
        decimal_value(first) <= i32::MAX,
        decimal_value(second) <= i32::MAX,
    ensures
        spec_apply(cfg, OptionItem::NameValue { key, value: OptionValue::Text(text) }) == Ok::<
            ConfigView,
            ConfigErrorView,
        >(
            ConfigView {
                width: decimal_value(first) as i32,
                height: decimal_value(second) as i32,
                ..cfg
            },
        ),
{
    reveal_strlit("window");
    reveal_strlit("title");
    assert("window"@.len() != "title"@.len());
    lemma_window_reads_components(first, second);
}

/// The key of an option, where it has one.
pub open spec fn key_of(item: OptionItem) -> Option<Seq<char>> {
    match item {
        OptionItem::NameValue { key, .. } => Some(key@),
        OptionItem::Other => None,
    }
}

/// Two options under different keys give the same configuration in either
/// order, where they are accepted.
pub proof fn lemma_distinct_keys_commute(cfg: ConfigView, a: OptionItem, b: OptionItem)
    requires
        key_of(a) != key_of(b),
    ensures
        spec_apply_all(cfg, seq![a, b]) matches Ok(c) ==> spec_apply_all(cfg, seq![b, a]) == Ok::<
            ConfigView,
            ConfigErrorView,
        >(c),
{
    reveal_strlit("title");
    reveal_strlit("window");
    reveal_strlit("background_color");
    assert("title"@.len() == 5 && "window"@.len() == 6 && "background_color"@.len() == 16);
    reveal_with_fuel(spec_apply_all, 3);
    let ab = seq![a, b];
    let ba = seq![b, a];
    assert(ab[0] == a && ab.drop_first() =~= seq![b] && ab.drop_first()[0] == b);
    assert(ba[0] == b && ba.drop_first() =~= seq![a] && ba.drop_first()[0] == a);
    assert(ab.drop_first().drop_first().len() == 0);
    assert(ba.drop_first().drop_first().len() == 0);
}

/// The option names `background_color`.
pub open spec fn names_color(item: OptionItem) -> bool {
    item matches OptionItem::NameValue { key, .. } && key@ == "background_color"@
}

/// Options of which none names `background_color` leave the color as it was.
pub proof fn lemma_color_kept(cfg: ConfigView, items: Seq<OptionItem>)
    requires
        forall|i: int| 0 <= i < items.len() ==> !names_color(#[trigger] items[i]),
    ensures
        spec_apply_all(cfg, items) matches Ok(c) ==> c.color == cfg.color,
    decreases items.len(),
{
    if items.len() > 0 {
        assert(!names_color(items[0]));
        match spec_apply(cfg, items[0]) {
            Ok(next) => {
                assert(next.color == cfg.color);
                assert forall|i: int| 0 <= i < items.drop_first().len() implies !names_color(
                    #[trigger] items.drop_first()[i],
                ) by {
                    assert(items.drop_first()[i] == items[i + 1]);
                }
                lemma_color_kept(next, items.drop_first());
            },
            Err(_) => {},
        }
    }
}

/// An option list that is accepted and does not name `background_color` gives
/// the default color, opaque black.
pub proof fn lemma_omitted_color_is_default(items: Seq<OptionItem>)
    requires
        forall|i: int| 0 <= i < items.len() ==> !names_color(#[trigger] items[i]),
    ensures
        spec_apply_all(default_config(), items) matches Ok(c) ==> c.color == default_color(),
{
    lemma_color_kept(default_config(), items);
}

} // verus!
