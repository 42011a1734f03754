//! The source registry: the text of a request under a synthetic name, every
//! byte of it at a position of its own.

use swc_core::common::sync::Lrc;
use swc_core::common::{FileName, SourceMap};
use vstd::prelude::*;
use vstd::utf8::{
    encode_scalar,
    encode_utf8,
    has_width_1_encoding,
    has_width_2_encoding,
    has_width_3_encoding,
};

verus! {

/// The registry that gives each byte of a source text its position.
#[verifier::external_type_specification]
#[verifier::external_body]
pub struct ExSourceMap(swc_core::common::SourceMap);

/// One registered source text.
#[verifier::external_type_specification]
#[verifier::external_body]
pub struct ExSourceFile(swc_common::SourceFile);

/// The longest source text, in bytes, that a request accepts. Positions are
/// 32-bit numbers of which the topmost are set aside, and the text of a
/// request begins at position one.
pub const MAX_SOURCE_BYTES: usize = 0xFFFE_FFFD;

/// The position of the first byte of a request's text.
pub const FIRST_POSITION: u32 = 1;

/// The byte-order mark.
pub const BYTE_ORDER_MARK: char = '\u{feff}';

/// The text of one module under its synthetic name, registered in a registry of
/// its own. It is made once per request and never changed.
pub struct SourceUnit {
    pub(crate) source_map: Lrc<SourceMap>,
    pub(crate) file: Lrc<swc_common::SourceFile>,
    start: u32,
    end: u32,
}

/// The text that is registered for `content`: `content` without a leading
/// byte-order mark.
pub open spec fn registered_text(content: Seq<char>) -> Seq<char> {
    if content.len() > 0 && content[0] == BYTE_ORDER_MARK {
        content.drop_first()
    } else {
        content
    }
}

/// The byte-order mark takes three bytes, so the registered text is as long as
/// the text that was handed in, or three bytes shorter.
pub proof fn lemma_registered_text_length(content: Seq<char>)
    ensures
        registered_text(content) == content ==> encode_utf8(registered_text(content)).len()
            == encode_utf8(content).len(),
        registered_text(content) != content ==> encode_utf8(registered_text(content)).len() + 3
            == encode_utf8(content).len(),
        encode_utf8(registered_text(content)).len() <= encode_utf8(content).len(),
{
    if content.len() > 0 && content[0] == BYTE_ORDER_MARK {
        assert(encode_scalar(BYTE_ORDER_MARK as u32).len() == 3) by {
            assert(BYTE_ORDER_MARK as u32 == 0xFEFF);
            assert(!has_width_1_encoding(0xFEFFu32));
            assert(!has_width_2_encoding(0xFEFFu32));
            assert(has_width_3_encoding(0xFEFFu32));
        }
    }
}

/// The unit that registering `content` under `file_name` gives.
pub uninterp spec fn registered(file_name: Seq<char>, content: Seq<char>) -> SourceUnit;

impl SourceUnit {
    /// The position of the first byte of the text.
    pub closed spec fn start_spec(&self) -> u32 {
        self.start
    }

    /// The position after the last byte of the text.
    pub closed spec fn end_spec(&self) -> u32 {
        self.end
    }

    /// The length of the registered text in bytes.
    pub open spec fn len_spec(&self) -> int {
        self.end_spec() - self.start_spec()
    }

    /// Whether the unit's positions are in order.
    pub open spec fn well_formed(&self) -> bool {
        self.start_spec() <= self.end_spec()
    }

    /// The byte offset into the text that a position of the registry stands
    /// for, if it stands for one.
    pub open spec fn offset_spec(&self, position: u32) -> Option<u32> {
        if self.start_spec() <= position <= self.end_spec() {
            Some((position - self.start_spec()) as u32)
        } else {
            None
        }
    }

    /// The byte offset into the text that lies nearest to a position of the
    /// registry.
    pub open spec fn nearest_offset_spec(&self, position: u32) -> u32 {
        if position < self.start_spec() {
            0
        } else if position > self.end_spec() {
            (self.end_spec() - self.start_spec()) as u32
        } else {
            (position - self.start_spec()) as u32
        }
    }

    /// The byte offset into the text that a position of the registry stands
    /// for: `None` for a position before the text or after its end.
    pub fn offset_of(&self, position: u32) -> (offset: Option<u32>)
        ensures
            offset == self.offset_spec(position),
            offset matches Some(o) ==> o <= self.len_spec(),
    {
        if self.start <= position && position <= self.end {
            Some(position - self.start)
        } else {
            None
        }
    }

    /// The byte offset into the text that lies nearest to a position of the
    /// registry: zero for a position before the text, the length of the text
    /// for one after its end.
    pub fn nearest_offset(&self, position: u32) -> (offset: u32)
        requires
            self.well_formed(),
        ensures
            offset == self.nearest_offset_spec(position),
            0 <= offset <= self.len_spec(),
            self.offset_spec(position) matches Some(o) ==> offset == o,
    {
        if position < self.start {
            0
        } else if position > self.end {
            self.end - self.start
        } else {
            position - self.start
        }
    }
}

/// `SourceMap::default` and `SourceMap::new_source_file` with a custom file
/// name: a registry of its own that holds this one text. The registry drops a
/// leading byte-order mark, puts the first byte of the text at position one, and
/// the end of the text as many positions later as the text has bytes.
#[verifier::external_body]
pub(crate) fn register_source(file_name: String, content: String) -> (unit: SourceUnit)
    requires
        encode_utf8(content@).len() <= MAX_SOURCE_BYTES,
    ensures
        unit == registered(file_name@, content@),
        unit.start_spec() == FIRST_POSITION,
        unit.end_spec() == FIRST_POSITION + encode_utf8(registered_text(content@)).len(),
{
    let source_map: Lrc<SourceMap> = Default::default();
    let file = source_map.new_source_file(Lrc::new(FileName::Custom(file_name)), content);
    let (start, end) = (file.start_pos.0, file.end_pos.0);
    SourceUnit { source_map, file, start, end }
}

} // verus!
