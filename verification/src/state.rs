//! The state that one view keeps from frame to frame: its configuration and
//! the cache of the text runs of the 256 byte values.
//!
//! The cache is filled on first use. It is filled for one digit case; when the
//! configuration asks for the other, the next frame that draws a byte fills it
//! anew.

use crate::glyph::{hex_glyph, hex_glyph_of, HexGlyph};
use crate::layout::{default_config, HexConfig};
use std::collections::HashMap;
use vstd::prelude::*;

verus! {

/// What a `HexState` stands for: its configuration, and the cached text run
/// of each byte value that has one.
pub struct HexStateView {
    /// The display settings.
    pub config: HexConfig,
    /// The cache: the text run of each byte value that it holds one for.
    pub galleys: Map<u8, HexGlyph>,
}

/// The full cache for one digit case: every byte value with its text run.
pub open spec fn glyph_table(uppercase: bool) -> Map<u8, HexGlyph> {
    Map::new(|byte: u8| true, |byte: u8| hex_glyph_of(byte, uppercase))
}

/// The state of one view.
pub struct HexState {
    galleys: HashMap<u8, HexGlyph>,
    galleys_uppercase: bool,
    config: HexConfig,
}

impl View for HexState {
    type V = HexStateView;

    closed spec fn view(&self) -> HexStateView {
        HexStateView { config: self.config, galleys: self.galleys@ }
    }
}

impl HexState {
    /// The cache is empty, or it is the full table for the case it was filled
    /// for.
    #[verifier::type_invariant]
    spec fn cache_is_whole(self) -> bool {
        self.galleys@ == Map::<u8, HexGlyph>::empty() || self.galleys@ == glyph_table(
            self.galleys_uppercase,
        )
    }

    /// A state with the given configuration and an empty cache.
    pub fn from_config(config: HexConfig) -> (state: HexState)
        ensures
            state@.config == config,
            state@.galleys == Map::<u8, HexGlyph>::empty(),
    {
        HexState { galleys: HashMap::new(), galleys_uppercase: false, config }
    }

    /// The configuration.
    pub fn config(&self) -> (config: HexConfig)
        ensures
            config == self@.config,
    {
        self.config
    }

    /// Replaces the configuration. The cache stays as it is until the next
    /// frame that draws a byte.
    pub fn set_config(&mut self, config: HexConfig)
        ensures
            final(self)@.config == config,
            final(self)@.galleys == old(self)@.galleys,
    {
        proof {
            use_type_invariant(&*self);
        }
        self.config = config;
    }

    /// The cached text run of `byte`, if the cache holds one.
    pub fn galley(&self, byte: u8) -> (found: Option<HexGlyph>)
        ensures
            found == (if self@.galleys.contains_key(byte) {
                Some(self@.galleys[byte])
            } else {
                None
            }),
    {
        match self.galleys.get(&byte) {
            Some(glyph) => Some(*glyph),
            None => None,
        }
    }

    /// Whether the cache is the full table for the digit case that the
    /// configuration asks for.
    pub fn galleys_current(&self) -> (current: bool)
        ensures
            current == (self@.galleys == glyph_table(self@.config.uppercase_hex)),
    {
        proof {
            use_type_invariant(self);
            lemma_tables_differ();
            if self.galleys@.is_empty() {
                assert(self.galleys@ =~= Map::<u8, HexGlyph>::empty());
            }
        }
        !self.galleys.is_empty() && self.galleys_uppercase == self.config.uppercase_hex
    }
}

impl Clone for HexState {
    /// A state with the same configuration and the same cache.
    fn clone(&self) -> (copy: HexState)
        ensures
            copy@ == self@,
    {
        proof {
            use_type_invariant(self);
        }
        HexState {
            galleys: self.galleys.clone(),
            galleys_uppercase: self.galleys_uppercase,
            config: self.config,
        }
    }
}

impl Default for HexState {
    /// A state with the default configuration and an empty cache.
    fn default() -> (state: HexState)
        ensures
            state@.config == default_config(),
            state@.galleys == Map::<u8, HexGlyph>::empty(),
    {
        HexState::from_config(HexConfig::default())
    }
}

/// A cache that was filled for one digit case is not the cache for the
/// other, and an empty cache is the cache for neither.
pub proof fn lemma_tables_differ()
    ensures
        glyph_table(true) != glyph_table(false),
        glyph_table(true) != Map::<u8, HexGlyph>::empty(),
        glyph_table(false) != Map::<u8, HexGlyph>::empty(),
{
    assert(glyph_table(true).contains_key(0xab));
    assert(glyph_table(false).contains_key(0xab));
    assert(glyph_table(true)[0xab].hi == 'A');
    assert(glyph_table(false)[0xab].hi == 'a');
}

/// Fills the cache with the text runs of all 256 byte values, in the digit
/// case that the configuration asks for.
pub fn refresh_galleys(state: &mut HexState)
    ensures
        final(state)@.config == old(state)@.config,
        final(state)@.galleys == glyph_table(old(state)@.config.uppercase_hex),
{
    let uppercase: bool = state.config.uppercase_hex;
    let mut galleys: HashMap<u8, HexGlyph> = HashMap::new();
    let mut next: u16 = 0;
    while next < 256
        invariant
            next <= 256,
            forall|byte: u8| byte < next <==> #[trigger] galleys@.contains_key(byte),
            forall|byte: u8| byte < next ==> #[trigger] galleys@[byte] == hex_glyph_of(byte, uppercase),
        decreases 256 - next,
    {
        let byte: u8 = next as u8;
        galleys.insert(byte, hex_glyph(byte, uppercase));
        next = next + 1;
    }
    assert(galleys@ =~= glyph_table(uppercase));
    *state = HexState { galleys, galleys_uppercase: uppercase, config: state.config };
}

} // verus!
