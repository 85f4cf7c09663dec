//! The keymap configuration that a legend is drawn from.

use vstd::prelude::*;

verus! {

/// One cell of a keymap: whatever the configuration file holds at that
/// place.
#[derive(Clone, Debug)]
pub enum Token {
    /// A string, such as a key code or a tap-dance reference.
    Text(String),
    /// A whole number.
    Integer(i64),
    /// A number that is not an `i64`, carried as its decimal text.
    Decimal(String),
    /// Anything else: null, a truth value, a list or a record.
    Other,
}

/// The mathematical content of a [`Token`].
pub enum TokenView {
    Text(Seq<char>),
    Integer(int),
    Decimal(Seq<char>),
    Other,
}

impl View for Token {
    type V = TokenView;

    open spec fn view(&self) -> TokenView {
        match *self {
            Token::Text(s) => TokenView::Text(s@),
            Token::Integer(n) => TokenView::Integer(n as int),
            Token::Decimal(s) => TokenView::Decimal(s@),
            Token::Other => TokenView::Other,
        }
    }
}

impl DeepView for Token {
    type V = TokenView;

    open spec fn deep_view(&self) -> TokenView {
        self@
    }
}

/// A Vial keymap: layers of key grids, the tap-dance definitions they refer
/// to, and the metadata that travels with them.
#[derive(Clone, Debug)]
pub struct VialConfig {
    pub version: u32,
    pub uid: u64,
    /// One grid of tokens per layer, indexed `[layer][row][column]`.
    pub layout: Vec<Vec<Vec<Token>>>,
    pub encoder_layout: Vec<Vec<Vec<String>>>,
    pub layout_options: u32,
    pub macro_data: Vec<Vec<String>>,
    pub vial_protocol: u32,
    pub via_protocol: u32,
    /// One entry per tap dance: the tap token, the hold token, and more.
    pub tap_dance: Vec<Vec<Token>>,
    pub combo: Vec<Vec<String>>,
    /// One entry per key override, whatever its shape.
    pub key_override: Vec<Token>,
    /// The settings record, whatever its shape.
    pub settings: Token,
}

/// The mathematical content of a [`VialConfig`].
pub struct ConfigView {
    pub version: nat,
    pub uid: nat,
    pub layout: Seq<Seq<Seq<TokenView>>>,
    pub encoder_layout: Seq<Seq<Seq<Seq<char>>>>,
    pub layout_options: nat,
    pub macro_data: Seq<Seq<Seq<char>>>,
    pub vial_protocol: nat,
    pub via_protocol: nat,
    pub tap_dance: Seq<Seq<TokenView>>,
    pub combo: Seq<Seq<Seq<char>>>,
    pub key_override: Seq<TokenView>,
    pub settings: TokenView,
}

impl View for VialConfig {
    type V = ConfigView;

    open spec fn view(&self) -> ConfigView {
        ConfigView {
            version: self.version as nat,
            uid: self.uid as nat,
            layout: self.layout.deep_view(),
            encoder_layout: self.encoder_layout.deep_view(),
            layout_options: self.layout_options as nat,
            macro_data: self.macro_data.deep_view(),
            vial_protocol: self.vial_protocol as nat,
            via_protocol: self.via_protocol as nat,
            tap_dance: self.tap_dance.deep_view(),
            combo: self.combo.deep_view(),
            key_override: self.key_override.deep_view(),
            settings: self.settings@,
        }
    }
}

impl ConfigView {
    /// The grid of the base layer, the only one that is drawn; empty where
    /// the keymap has no layer.
    pub open spec fn base_layer(self) -> Seq<Seq<TokenView>> {
        if self.layout.len() > 0 {
            self.layout[0]
        } else {
            Seq::empty()
        }
    }
}

} // verus!
