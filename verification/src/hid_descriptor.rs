//! HID report descriptor tokenizing and the lean v1 summary of input fields.
use vstd::prelude::*;

verus! {

/// The maximum number of descriptor fields supported by the fixed summary.
pub const MAX_FIELDS: usize = 32;

/// Identifies a HID short item category.
#[derive(Debug, Clone, Copy, PartialEq, Eq, Structural)]
pub enum ItemType {
    /// Main item.
    Main,
    /// Global item.
    Global,
    /// Local item.
    Local,
    /// Reserved item type.
    Reserved,
}

/// One parsed HID short item token.
#[derive(Debug, Clone, Copy, PartialEq, Eq, Structural)]
pub struct ShortItem {
    /// The decoded item type.
    pub item_type: ItemType,
    /// The decoded 4-bit tag value.
    pub tag: u8,
    /// The number of data bytes carried by this item.
    pub size_bytes: u8,
    /// The raw little-endian item data.
    pub data: u32,
}

/// Errors that can occur while tokenizing HID short items.
#[derive(Debug, Clone, Copy, PartialEq, Eq, Structural)]
pub enum ItemParseError {
    /// HID long items are not supported in lean v1.
    LongItemsUnsupported,
    /// The input ended before a full short item could be read.
    Truncated {
        /// The total number of bytes needed starting at the requested offset.
        needed: usize,
        /// The number of bytes actually remaining starting at the offset.
        remaining: usize,
    },
}

/// Identifies a HID usage page in the descriptor summary.
#[derive(Debug, Clone, Copy, PartialEq, Eq, Structural)]
pub enum UsagePage {
    /// Generic Desktop Controls usage page.
    GenericDesktop,
    /// Button usage page.
    Button,
    /// An unrecognized usage page value.
    Unknown(u16),
}

/// Identifies a Generic Desktop usage in the descriptor summary.
#[derive(Debug, Clone, Copy, PartialEq, Eq, Structural)]
pub enum GenericDesktopUsage {
    /// X axis.
    X,
    /// Y axis.
    Y,
    /// Z axis.
    Z,
    /// Rx axis.
    Rx,
    /// Ry axis.
    Ry,
    /// Rz axis.
    Rz,
    /// Hat switch.
    HatSwitch,
    /// An unrecognized Generic Desktop usage value.
    Unknown(u16),
}

/// Identifies a concrete HID usage in the descriptor summary.
#[derive(Debug, Clone, Copy, PartialEq, Eq, Structural)]
pub enum Usage {
    /// A Generic Desktop usage.
    GenericDesktop(GenericDesktopUsage),
    /// A one-based button usage identifier.
    Button(u16),
    /// An unknown usage with its page and identifier preserved.
    Unknown {
        /// The usage page associated with the unknown usage.
        page: UsagePage,
        /// The raw usage identifier value.
        id: u16,
    },
}

/// Identifies whether a field is variable or array data.
#[derive(Debug, Clone, Copy, PartialEq, Eq, Structural)]
pub enum FieldKind {
    /// Variable field data.
    Variable,
    /// Array field data.
    Array,
}

/// A single decoded descriptor field summary entry.
#[derive(Debug, Clone, Copy, PartialEq, Eq, Structural)]
pub struct ReportField {
    /// The report identifier for this field.
    pub report_id: u8,
    /// The bit offset of the field within the report payload.
    pub bit_offset: u16,
    /// The field width in bits.
    pub bit_size: u8,
    /// The logical minimum value.
    pub logical_min: i32,
    /// The logical maximum value.
    pub logical_max: i32,
    /// The semantic usage of the field.
    pub usage: Usage,
    /// Whether the field is variable or array data.
    pub kind: FieldKind,
}

/// A fixed-capacity summary of descriptor fields for lean v1.
#[derive(Debug, Clone, Copy, PartialEq, Eq)]
pub struct ReportDescriptorSummary {
    /// The fixed-capacity field storage.
    pub fields: [Option<ReportField>; 32],
    /// The number of populated field entries.
    pub field_count: usize,
}

/// Errors that can occur when building a descriptor summary.
#[derive(Debug, Clone, Copy, PartialEq, Eq, Structural)]
pub enum DescriptorError {
    /// Too many fields were pushed into the fixed-capacity summary.
    TooManyFields {
        /// The total number of fields that was attempted.
        attempted: usize,
        /// The maximum supported number of fields.
        max: usize,
    },
    /// A field was pushed with a bit offset earlier than the previous field.
    FieldOutOfOrder,
}

/// Errors that can occur while parsing a descriptor into the summary IR.
#[derive(Debug, Clone, Copy, PartialEq, Eq, Structural)]
pub enum DescriptorParseError {
    /// A short-item tokenization error occurred.
    Item(ItemParseError),
    /// An input item required a current usage page that was not set.
    MissingUsagePage,
    /// An input item required a pending usage that was not set.
    MissingUsage,
    /// An input item required a report size that was not set.
    MissingReportSize,
    /// An input item required both logical minimum and maximum values.
    MissingLogicalRange,
    /// Lean v1 only supports descriptors with report count 1 per input item.
    UnsupportedReportCount {
        /// The unsupported report count value.
        count: u32,
    },
    /// The parsed report size did not fit into the supported bit-size type.
    ReportSizeOutOfRange {
        /// The raw report size in bits.
        size_bits: u32,
    },
    /// The parsed report id did not fit into `u8`.
    ReportIdOutOfRange {
        /// The raw report id value.
        report_id: u32,
    },
    /// Building the fixed-capacity summary failed.
    Summary(DescriptorError),
}

// ---------------------------------------------------------------------------
// Mathematical model
// ---------------------------------------------------------------------------
/// The signed value of item data of the given width (two's complement over
/// the low `size_bytes` bytes; four-byte and unusual widths use all 32 bits).
pub open spec fn spec_sign_extend(data: u32, size_bytes: u8) -> int {
    if size_bytes == 0 {
        0
    } else if size_bytes == 1 {
        let b = data % 0x100;
        if b >= 0x80 {
            b - 0x100
        } else {
            b as int
        }
    } else if size_bytes == 2 {
        let w = data % 0x1_0000;
        if w >= 0x8000 {
            w - 0x1_0000
        } else {
            w as int
        }
    } else if data >= 0x8000_0000 {
        data - 0x1_0000_0000
    } else {
        data as int
    }
}

/// The item category encoded by a two-bit type code.
pub open spec fn spec_item_type(raw: u8) -> ItemType {
    if raw == 0 {
        ItemType::Main
    } else if raw == 1 {
        ItemType::Global
    } else if raw == 2 {
        ItemType::Local
    } else {
        ItemType::Reserved
    }
}

/// The number of data bytes selected by a two-bit size code (0, 1, 2 or 4).
pub open spec fn spec_item_size(size_code: int) -> int {
    if size_code == 3 {
        4
    } else {
        size_code
    }
}

/// The little-endian value of `size` bytes of `input` starting at `start`.
pub open spec fn spec_le_data(input: Seq<u8>, start: int, size: int) -> int {
    if size == 0 {
        0
    } else if size == 1 {
        input[start] as int
    } else if size == 2 {
        input[start] + 0x100 * input[start + 1]
    } else {
        input[start] + 0x100 * input[start + 1] + 0x1_0000 * input[start + 2] + 0x100_0000
            * input[start + 3]
    }
}

/// The short item that starts at `offset`, with the offset just past it.
pub open spec fn spec_short_item(input: Seq<u8>, offset: int) -> Result<
    (ShortItem, int),
    ItemParseError,
> {
    if offset < 0 || offset >= input.len() {
        Err(ItemParseError::Truncated { needed: 1, remaining: 0 })
    } else {
        let prefix = input[offset];
        if prefix == 0xFE {
            Err(ItemParseError::LongItemsUnsupported)
        } else {
            let size = spec_item_size((prefix % 4) as int);
            let needed = 1 + size;
            let remaining = input.len() - offset;
            if remaining < needed {
                Err(ItemParseError::Truncated { needed: needed as usize, remaining: remaining as usize })
            } else {
                Ok(
                    (
                        ShortItem {
                            item_type: spec_item_type(((prefix / 4) % 4) as u8),
                            tag: (prefix / 16) as u8,
                            size_bytes: size as u8,
                            data: spec_le_data(input, offset + 1, size) as u32,
                        },
                        offset + needed,
                    ),
                )
            }
        }
    }
}

/// The usage page classification of a raw page identifier.
pub open spec fn spec_usage_page(raw: u16) -> UsagePage {
    if raw == 0x0001 {
        UsagePage::GenericDesktop
    } else if raw == 0x0009 {
        UsagePage::Button
    } else {
        UsagePage::Unknown(raw)
    }
}

/// The Generic Desktop classification of a raw usage identifier.
pub open spec fn spec_generic_desktop_usage(raw: u16) -> GenericDesktopUsage {
    if raw == 0x30 {
        GenericDesktopUsage::X
    } else if raw == 0x31 {
        GenericDesktopUsage::Y
    } else if raw == 0x32 {
        GenericDesktopUsage::Z
    } else if raw == 0x33 {
        GenericDesktopUsage::Rx
    } else if raw == 0x34 {
        GenericDesktopUsage::Ry
    } else if raw == 0x35 {
        GenericDesktopUsage::Rz
    } else if raw == 0x39 {
        GenericDesktopUsage::HatSwitch
    } else {
        GenericDesktopUsage::Unknown(raw)
    }
}

/// The typed usage for a raw page and usage identifier.
pub open spec fn spec_usage(page: u16, id: u16) -> Usage {
    match spec_usage_page(page) {
        UsagePage::GenericDesktop => Usage::GenericDesktop(spec_generic_desktop_usage(id)),
        UsagePage::Button => Usage::Button(id),
        p => Usage::Unknown { page: p, id },
    }
}

/// Appending one field to a list of summary fields: at most 32 fields, and
/// no field may start before the previous one.
pub open spec fn spec_push_field(fields: Seq<ReportField>, field: ReportField) -> Result<
    Seq<ReportField>,
    DescriptorError,
> {
    if fields.len() >= 32 {
        Err(DescriptorError::TooManyFields { attempted: (fields.len() + 1) as usize, max: 32 })
    } else if fields.len() > 0 && field.bit_offset < fields.last().bit_offset {
        Err(DescriptorError::FieldOutOfOrder)
    } else {
        Ok(fields.push(field))
    }
}

/// The global and local item state carried while walking a descriptor.
pub ghost struct ParseState {
    pub usage_page: Option<u16>,
    pub pending_usage: Option<u16>,
    pub logical_min: Option<i32>,
    pub logical_max: Option<i32>,
    pub report_size: Option<u8>,
    pub report_count: u32,
    pub report_id: u8,
    pub bit_offset: u16,
    pub fields: Seq<ReportField>,
}

/// The state before the first item of a descriptor.
pub open spec fn initial_parse_state() -> ParseState {
    ParseState {
        usage_page: None,
        pending_usage: None,
        logical_min: None,
        logical_max: None,
        report_size: None,
        report_count: 1,
        report_id: 0,
        bit_offset: 0,
        fields: Seq::empty(),
    }
}

/// The bit offset after a field of `size` bits, modulo 2^16.
pub open spec fn spec_advance(offset: u16, size: u8) -> u16 {
    ((offset + size) % 0x1_0000) as u16
}

/// The effect of one Input main item with the given flags.
pub open spec fn spec_input_item(st: ParseState, flags: u32) -> Result<
    ParseState,
    DescriptorParseError,
> {
    if st.report_count != 1 {
        Err(DescriptorParseError::UnsupportedReportCount { count: st.report_count })
    } else if st.usage_page is None {
        Err(DescriptorParseError::MissingUsagePage)
    } else if st.pending_usage is None {
        Err(DescriptorParseError::MissingUsage)
    } else if st.report_size is None {
        Err(DescriptorParseError::MissingReportSize)
    } else if st.logical_min is None || st.logical_max is None {
        Err(DescriptorParseError::MissingLogicalRange)
    } else {
        let size = st.report_size->0;
        let next = ParseState {
            bit_offset: spec_advance(st.bit_offset, size),
            pending_usage: None,
            ..st
        };
        if flags % 2 == 1 {
            // Constant (padding) input: only the offset advances.
            Ok(next)
        } else {
            let field = ReportField {
                report_id: st.report_id,
                bit_offset: st.bit_offset,
                bit_size: size,
                logical_min: st.logical_min->0,
                logical_max: st.logical_max->0,
                usage: spec_usage(st.usage_page->0, st.pending_usage->0),
                kind: if (flags / 2) % 2 == 1 {
                    FieldKind::Variable
                } else {
                    FieldKind::Array
                },
            };
            match spec_push_field(st.fields, field) {
                Err(e) => Err(DescriptorParseError::Summary(e)),
                Ok(fields) => Ok(ParseState { fields, ..next }),
            }
        }
    }
}

/// The effect of one short item on the parse state.
pub open spec fn spec_apply_item(st: ParseState, item: ShortItem) -> Result<
    ParseState,
    DescriptorParseError,
> {
    match item.item_type {
        ItemType::Global => {
            if item.tag == 0 {
                Ok(ParseState { usage_page: Some((item.data % 0x1_0000) as u16), ..st })
            } else if item.tag == 1 {
                Ok(
                    ParseState {
                        logical_min: Some(spec_sign_extend(item.data, item.size_bytes) as i32),
                        ..st
                    },
                )
            } else if item.tag == 2 {
                Ok(
                    ParseState {
                        logical_max: Some(spec_sign_extend(item.data, item.size_bytes) as i32),
                        ..st
                    },
                )
            } else if item.tag == 7 {
                if item.data <= 0xFF {
                    Ok(ParseState { report_size: Some(item.data as u8), ..st })
                } else {
                    Err(DescriptorParseError::ReportSizeOutOfRange { size_bits: item.data })
                }
            } else if item.tag == 8 {
                if item.data <= 0xFF {
                    Ok(ParseState { report_id: item.data as u8, ..st })
                } else {
                    Err(DescriptorParseError::ReportIdOutOfRange { report_id: item.data })
                }
            } else if item.tag == 9 {
                Ok(ParseState { report_count: item.data, ..st })
            } else {
                Ok(st)
            }
        },
        ItemType::Local => {
            if item.tag == 0 {
                Ok(ParseState { pending_usage: Some((item.data % 0x1_0000) as u16), ..st })
            } else {
                Ok(st)
            }
        },
        ItemType::Main => {
            if item.tag == 8 {
                spec_input_item(st, item.data)
            } else {
                Ok(st)
            }
        },
        ItemType::Reserved => Ok(st),
    }
}

/// Parsing the items from `offset` to the end of `input`, starting in `st`.
pub open spec fn spec_parse_from(input: Seq<u8>, offset: int, st: ParseState) -> Result<
    Seq<ReportField>,
    DescriptorParseError,
>
    decreases input.len() - offset,
{
    if offset < 0 || offset >= input.len() {
        Ok(st.fields)
    } else {
        match spec_short_item(input, offset) {
            Err(e) => Err(DescriptorParseError::Item(e)),
            Ok(parsed) => match spec_apply_item(st, parsed.0) {
                Err(e) => Err(e),
                Ok(next) => if parsed.1 > offset {
                    spec_parse_from(input, parsed.1, next)
                } else {
                    Ok(next.fields)
                },
            },
        }
    }
}

/// Whether fields never start before an earlier field.
pub open spec fn offsets_ordered(fields: Seq<ReportField>) -> bool {
    forall|i: int, j: int|
        0 <= i <= j < fields.len() ==> (#[trigger] fields[i]).bit_offset <= (#[trigger] fields[j]).bit_offset
}

/// Applying one item keeps the fields ordered and within capacity.
proof fn lemma_apply_item_ordered(st: ParseState, item: ShortItem)
    requires
        offsets_ordered(st.fields),
        st.fields.len() <= 32,
    ensures
        spec_apply_item(st, item) matches Ok(next) ==> offsets_ordered(next.fields)
            && next.fields.len() <= 32,
{
    if item.item_type == ItemType::Main && item.tag == 8 {
        if let Ok(next) = spec_input_item(st, item.data) {
            if next.fields.len() != st.fields.len() {
                let field = next.fields.last();
                assert(next.fields == st.fields.push(field));
                assert forall|i: int, j: int|
                    0 <= i <= j < next.fields.len() implies (#[trigger] next.fields[i]).bit_offset
                    <= (#[trigger] next.fields[j]).bit_offset by {
                    if j == st.fields.len() && i < j {
                        assert(st.fields[i].bit_offset <= st.fields.last().bit_offset);
                    }
                }
            }
        }
    }
}

/// Parsing from any ordered state ends with ordered fields, at most 32.
proof fn lemma_parse_from_ordered(input: Seq<u8>, offset: int, st: ParseState)
    requires
        offsets_ordered(st.fields),
        st.fields.len() <= 32,
    ensures
        spec_parse_from(input, offset, st) matches Ok(fields) ==> offsets_ordered(fields)
            && fields.len() <= 32,
    decreases input.len() - offset,
{
    if 0 <= offset < input.len() {
        if let Ok(parsed) = spec_short_item(input, offset) {
            lemma_apply_item_ordered(st, parsed.0);
            if let Ok(next) = spec_apply_item(st, parsed.0) {
                if parsed.1 > offset {
                    lemma_parse_from_ordered(input, parsed.1, next);
                }
            }
        }
    }
}

/// The fields of every descriptor that parses are ordered by bit offset,
/// and there are at most 32 of them.
pub proof fn lemma_parsed_fields_ordered(input: Seq<u8>)
    ensures
        spec_parse_descriptor(input) matches Ok(fields) ==> offsets_ordered(fields) && fields.len()
            <= 32,
{
    lemma_parse_from_ordered(input, 0, initial_parse_state());
}

/// The number of data-carrying Input main items of a descriptor from
/// `offset` on, walking it item by item. A short item is its prefix byte and
/// 0, 1, 2 or 4 data bytes (by the prefix's low two bits); an Input main item
/// has prefix 0x80 to 0x83, and it carries data unless bit 0 of its first
/// data byte (Constant) is set. Output, Feature and collection items, global
/// and local items, are not counted; the walk ends at an item cut off by the
/// end of the descriptor.
pub open spec fn data_input_items(input: Seq<u8>, offset: int) -> nat
    decreases input.len() - offset,
{
    if offset < 0 || offset >= input.len() {
        0
    } else {
        let prefix = input[offset];
        let len: int = if prefix % 4 == 3 {
            5
        } else {
            1 + prefix % 4
        };
        let counted = 0x80 <= prefix <= 0x83 && (prefix % 4 == 0 || input[offset + 1] % 2 == 0);
        if offset + len > input.len() {
            0
        } else {
            (if counted {
                1nat
            } else {
                0nat
            }) + data_input_items(input, offset + len)
        }
    }
}

/// Applying one item adds a field exactly when the item is a data-carrying
/// Input main item, and otherwise keeps the fields.
proof fn lemma_apply_item_count(input: Seq<u8>, offset: int, st: ParseState)
    requires
        0 <= offset < input.len(),
        spec_short_item(input, offset) matches Ok(parsed) && spec_apply_item(st, parsed.0) is Ok,
    ensures
        ({
            let prefix = input[offset];
            let counted = 0x80 <= prefix <= 0x83 && (prefix % 4 == 0 || input[offset + 1] % 2 == 0);
            let parsed = spec_short_item(input, offset)->Ok_0;
            let next = spec_apply_item(st, parsed.0)->Ok_0;
            &&& next.fields.len() == st.fields.len() + (if counted {
                1int
            } else {
                0int
            })
            &&& parsed.1 == offset + (if prefix % 4 == 3 {
                5
            } else {
                1 + prefix % 4
            })
        }),
{
    let prefix = input[offset];
    let parsed = spec_short_item(input, offset)->Ok_0;
    let item = parsed.0;
    let size = spec_item_size((prefix % 4) as int);
    let data = spec_le_data(input, offset + 1, size);
    assert(item.data == data as u32);
    if size >= 1 {
        let a = input[offset + 1] as int;
        assert(data % 2 == a % 2) by {
            if size == 2 {
                let b = input[offset + 2] as int;
                assert((a + 0x100 * b) % 2 == a % 2) by (nonlinear_arith);
            } else if size == 4 {
                let b = input[offset + 2] as int;
                let c = input[offset + 3] as int;
                let d = input[offset + 4] as int;
                assert((a + 0x100 * b + 0x1_0000 * c + 0x100_0000 * d) % 2 == a % 2)
                    by (nonlinear_arith);
            }
        }
        assert(0 <= data <= 0xFFFF_FFFF) by {
            if size == 4 {
                let b = input[offset + 2] as int;
                let c = input[offset + 3] as int;
                let d = input[offset + 4] as int;
                assert(0 <= a + 0x100 * b + 0x1_0000 * c + 0x100_0000 * d <= 0xFFFF_FFFF)
                    by (nonlinear_arith)
                    requires
                        0 <= a <= 255,
                        0 <= b <= 255,
                        0 <= c <= 255,
                        0 <= d <= 255,
                ;
            }
        }
        assert(item.data % 2 == a % 2);
    } else {
        assert(item.data == 0);
    }
    assert((0x80 <= prefix <= 0x83) == (item.item_type == ItemType::Main && item.tag == 8));
}

/// Parsing from `offset` in state `st` adds one field per data-carrying
/// Input main item met.
proof fn lemma_parse_from_count(input: Seq<u8>, offset: int, st: ParseState)
    requires
        offset >= 0,
    ensures
        spec_parse_from(input, offset, st) matches Ok(fields) ==> fields.len() == st.fields.len()
            + data_input_items(input, offset),
    decreases input.len() - offset,
{
    if offset < input.len() {
        if let Ok(parsed) = spec_short_item(input, offset) {
            if let Ok(next) = spec_apply_item(st, parsed.0) {
                lemma_apply_item_count(input, offset, st);
                lemma_parse_from_count(input, parsed.1, next);
            }
        }
    }
}

/// The summary of a descriptor that parses has one field per data-carrying
/// Input main item (tag 8) of the descriptor, and no other: Output (tag 9),
/// Feature (tag 11) and collection items, and constant (padding) inputs,
/// add no field.
pub proof fn lemma_fields_are_data_inputs(input: Seq<u8>)
    ensures
        spec_parse_descriptor(input) matches Ok(fields) ==> fields.len() == data_input_items(
            input,
            0,
        ),
{
    lemma_parse_from_count(input, 0, initial_parse_state());
}

/// The summary fields of a whole descriptor, or the first error met.
pub open spec fn spec_parse_descriptor(input: Seq<u8>) -> Result<
    Seq<ReportField>,
    DescriptorParseError,
> {
    spec_parse_from(input, 0, initial_parse_state())
}

impl ShortItem {
    /// Returns the raw unsigned item value.
    pub fn unsigned_value(self) -> (r: u32)
        ensures
            r == self.data,
    {
        self.data
    }

    /// Returns the signed item value for the stored data width.
    pub fn signed_value(self) -> (r: i32)
        ensures
            r == spec_sign_extend(self.data, self.size_bytes),
    {
        sign_extend_item_data(self.data, self.size_bytes)
    }
}

impl ReportDescriptorSummary {
    /// The summary holds exactly `field_count` fields, in the first slots.
    pub open spec fn wf(&self) -> bool {
        &&& self.field_count <= 32
        &&& forall|i: int| 0 <= i < self.field_count ==> (#[trigger] self.fields@[i]) is Some
        &&& forall|i: int| self.field_count <= i < 32 ==> (#[trigger] self.fields@[i]) is None
    }

    /// The populated fields, in order.
    pub open spec fn model(&self) -> Seq<ReportField> {
        Seq::new(self.field_count as nat, |i: int| self.fields@[i]->0)
    }

    /// The entry seen at each index below `field_count` (empty past the storage).
    pub open spec fn entries(&self) -> Seq<Option<ReportField>> {
        Seq::new(
            self.field_count as nat,
            |i: int|
                if i < 32 {
                    self.fields@[i]
                } else {
                    None
                },
        )
    }

    /// Whether `field` starts before the field stored in the last populated slot.
    pub open spec fn precedes_last(&self, field: ReportField) -> bool {
        &&& 0 < self.field_count <= 32
        &&& match self.fields@[self.field_count - 1] {
            Some(prev) => field.bit_offset < prev.bit_offset,
            None => false,
        }
    }

    /// Returns the number of populated fields in the summary.
    pub fn field_count(&self) -> (r: usize)
        ensures
            r == self.field_count,
    {
        self.field_count
    }

    /// Returns whether the summary contains no fields.
    pub fn is_empty(&self) -> (r: bool)
        ensures
            r == (self.field_count == 0),
    {
        self.field_count == 0
    }

    /// Returns a copied field by index if it is present.
    pub fn field(&self, index: usize) -> (r: Option<ReportField>)
        ensures
            r == (if index < 32 {
                self.fields@[index as int]
            } else {
                None
            }),
    {
        if index < 32 {
            self.fields[index]
        } else {
            None
        }
    }

    /// Pushes one field into the fixed-capacity summary.
    pub fn push_field(&mut self, field: ReportField) -> (r: Result<(), DescriptorError>)
        requires
            old(self).field_count < usize::MAX,
        ensures
            old(self).field_count >= 32 ==> r == Err::<(), DescriptorError>(
                DescriptorError::TooManyFields {
                    attempted: (old(self).field_count + 1) as usize,
                    max: 32,
                },
            ),
            old(self).field_count < 32 && old(self).precedes_last(field) ==> r == Err::<
                (),
                DescriptorError,
            >(DescriptorError::FieldOutOfOrder),
            r is Err ==> *final(self) == *old(self),
            r is Ok <==> (old(self).field_count < 32 && !old(self).precedes_last(field)),
            r is Ok ==> final(self).field_count == old(self).field_count + 1 && final(self).fields@
                == old(self).fields@.update(old(self).field_count as int, Some(field)),
            old(self).wf() ==> final(self).wf() && match spec_push_field(old(self).model(), field) {
                Ok(fields) => r is Ok && final(self).model() == fields,
                Err(e) => r == Err::<(), DescriptorError>(e),
            },
    {
        if self.field_count >= MAX_FIELDS {
            return Err(DescriptorError::TooManyFields { attempted: self.field_count + 1, max: MAX_FIELDS });
        }
        if self.field_count > 0 {
            let previous = self.fields[self.field_count - 1];
            if let Some(previous) = previous {
                if field.bit_offset < previous.bit_offset {
                    return Err(DescriptorError::FieldOutOfOrder);
                }
            }
        }
        let ghost old_model = self.model();
        let idx = self.field_count;
        self.fields[idx] = Some(field);
        self.field_count = idx + 1;
        proof {
            if old(self).wf() {
                assert(self.model() =~= old_model.push(field));
            }
        }
        Ok(())
    }
}

impl Default for ReportDescriptorSummary {
    fn default() -> (r: Self)
        ensures
            r.wf(),
            r.field_count == 0,
            r.model() == Seq::<ReportField>::empty(),
            forall|i: int| 0 <= i < 32 ==> (#[trigger] r.fields@[i]) is None,
    {
        let r = ReportDescriptorSummary { fields: [None;32], field_count: 0 };
        assert(r.model() =~= Seq::<ReportField>::empty());
        r
    }
}

fn sign_extend_item_data(data: u32, size_bytes: u8) -> (r: i32)
    ensures
        r == spec_sign_extend(data, size_bytes),
{
    if size_bytes == 0 {
        0
    } else if size_bytes == 1 {
        let b = data % 0x100;
        if b >= 0x80 {
            (b as i32) - 0x100
        } else {
            b as i32
        }
    } else if size_bytes == 2 {
        let w = data % 0x1_0000;
        if w >= 0x8000 {
            (w as i32) - 0x1_0000
        } else {
            w as i32
        }
    } else if data >= 0x8000_0000 {
        let low = (data - 0x8000_0000) as i32;
        low - 0x4000_0000 - 0x4000_0000
    } else {
        data as i32
    }
}

/// Maps a raw item type code into the typed HID short-item category.
pub fn item_type_from_u8(raw: u8) -> (r: ItemType)
    ensures
        r == spec_item_type(raw),
{
    match raw {
        0 => ItemType::Main,
        1 => ItemType::Global,
        2 => ItemType::Local,
        _ => ItemType::Reserved,
    }
}

/// Parses one HID short item token starting at the provided byte offset.
pub fn parse_short_item(input: &[u8], offset: usize) -> (r: Result<(ShortItem, usize), ItemParseError>)
    ensures
        match spec_short_item(input@, offset as int) {
            Ok((item, next)) => r == Ok::<(ShortItem, usize), ItemParseError>((item, next as usize)),
            Err(e) => r == Err::<(ShortItem, usize), ItemParseError>(e),
        },
        r matches Ok((_, next)) ==> offset < next <= input@.len(),
{
    if offset >= input.len() {
        return Err(ItemParseError::Truncated { needed: 1, remaining: 0 });
    }
    let prefix = input[offset];
    if prefix == 0xFE {
        return Err(ItemParseError::LongItemsUnsupported);
    }
    let size_code = prefix % 4;
    let type_code = (prefix / 4) % 4;
    let tag = prefix / 16;
    let size_bytes: u8 = if size_code == 3 {
        4
    } else {
        size_code
    };
    let needed: usize = 1 + size_bytes as usize;
    let remaining: usize = input.len() - offset;
    if remaining < needed {
        return Err(ItemParseError::Truncated { needed, remaining });
    }
    let data: u32 = if size_bytes == 0 {
        0
    } else if size_bytes == 1 {
        input[offset + 1] as u32
    } else if size_bytes == 2 {
        input[offset + 1] as u32 + 0x100 * (input[offset + 2] as u32)
    } else {
        input[offset + 1] as u32 + 0x100 * (input[offset + 2] as u32) + 0x1_0000 * (input[offset
            + 3] as u32) + 0x100_0000 * (input[offset + 4] as u32)
    };
    Ok(
        (
            ShortItem { item_type: item_type_from_u8(type_code), tag, size_bytes, data },
            offset + needed,
        ),
    )
}

/// Maps a raw usage page identifier into the typed usage page model.
pub fn usage_page_from_u16(raw: u16) -> (r: UsagePage)
    ensures
        r == spec_usage_page(raw),
{
    match raw {
        0x0001 => UsagePage::GenericDesktop,
        0x0009 => UsagePage::Button,
        _ => UsagePage::Unknown(raw),
    }
}

/// Maps a raw Generic Desktop usage identifier into the typed usage model.
pub fn generic_desktop_usage_from_u16(raw: u16) -> (r: GenericDesktopUsage)
    ensures
        r == spec_generic_desktop_usage(raw),
{
    match raw {
        0x0030 => GenericDesktopUsage::X,
        0x0031 => GenericDesktopUsage::Y,
        0x0032 => GenericDesktopUsage::Z,
        0x0033 => GenericDesktopUsage::Rx,
        0x0034 => GenericDesktopUsage::Ry,
        0x0035 => GenericDesktopUsage::Rz,
        0x0039 => GenericDesktopUsage::HatSwitch,
        _ => GenericDesktopUsage::Unknown(raw),
    }
}

/// Maps raw page and usage identifiers into the typed usage model.
pub fn usage_from_parts(page: u16, id: u16) -> (r: Usage)
    ensures
        r == spec_usage(page, id),
{
    match usage_page_from_u16(page) {
        UsagePage::GenericDesktop => Usage::GenericDesktop(generic_desktop_usage_from_u16(id)),
        UsagePage::Button => Usage::Button(id),
        page => Usage::Unknown { page, id },
    }
}

/// The parse state that the loop of `parse_descriptor_summary` carries.
pub open spec fn loop_state(
    usage_page: Option<u16>,
    pending_usage: Option<u16>,
    logical_min: Option<i32>,
    logical_max: Option<i32>,
    report_size: Option<u8>,
    report_count: u32,
    report_id: u8,
    bit_offset: u16,
    fields: Seq<ReportField>,
) -> ParseState {
    ParseState {
        usage_page,
        pending_usage,
        logical_min,
        logical_max,
        report_size,
        report_count,
        report_id,
        bit_offset,
        fields,
    }
}

fn advance_bit_offset(offset: u16, size: u8) -> (r: u16)
    ensures
        r == spec_advance(offset, size),
{
    let sum: u32 = offset as u32 + size as u32;
    if sum >= 0x1_0000 {
        (sum - 0x1_0000) as u16
    } else {
        sum as u16
    }
}

/// Parses a lean v1 subset of HID descriptor items into a summary IR.
pub fn parse_descriptor_summary(input: &[u8]) -> (r: Result<ReportDescriptorSummary, DescriptorParseError>)
    ensures
        match spec_parse_descriptor(input@) {
            Ok(fields) => r matches Ok(s) && s.wf() && s.model() == fields,
            Err(e) => r == Err::<ReportDescriptorSummary, DescriptorParseError>(e),
        },
{
    let mut summary = ReportDescriptorSummary::default();
    let mut offset: usize = 0;
    let mut current_usage_page: Option<u16> = None;
    let mut pending_usage: Option<u16> = None;
    let mut current_logical_min: Option<i32> = None;
    let mut current_logical_max: Option<i32> = None;
    let mut current_report_size: Option<u8> = None;
    let mut current_report_count: u32 = 1;
    let mut current_report_id: u8 = 0;
    let mut current_bit_offset: u16 = 0;
    while offset < input.len()
        invariant
            offset <= input@.len(),
            summary.wf(),
            spec_parse_descriptor(input@) == spec_parse_from(
                input@,
                offset as int,
                loop_state(
                    current_usage_page,
                    pending_usage,
                    current_logical_min,
                    current_logical_max,
                    current_report_size,
                    current_report_count,
                    current_report_id,
                    current_bit_offset,
                    summary.model(),
                ),
            ),
        decreases input@.len() - offset,
    {
        let ghost st = loop_state(
            current_usage_page,
            pending_usage,
            current_logical_min,
            current_logical_max,
            current_report_size,
            current_report_count,
            current_report_id,
            current_bit_offset,
            summary.model(),
        );
        let (item, next_offset) = match parse_short_item(input, offset) {
            Ok(parsed) => parsed,
            Err(e) => {
                return Err(DescriptorParseError::Item(e));
            },
        };
        let ghost old_offset = offset;
        offset = next_offset;
        match item.item_type {
            ItemType::Global => {
                if item.tag == 0 {
                    current_usage_page = Some((item.unsigned_value() % 0x1_0000) as u16);
                } else if item.tag == 1 {
                    current_logical_min = Some(item.signed_value());
                } else if item.tag == 2 {
                    current_logical_max = Some(item.signed_value());
                } else if item.tag == 7 {
                    let raw_value = item.unsigned_value();
                    if raw_value > 0xFF {
                        return Err(DescriptorParseError::ReportSizeOutOfRange { size_bits: raw_value });
                    }
                    current_report_size = Some(raw_value as u8);
                } else if item.tag == 8 {
                    let raw_value = item.unsigned_value();
                    if raw_value > 0xFF {
                        return Err(DescriptorParseError::ReportIdOutOfRange { report_id: raw_value });
                    }
                    current_report_id = raw_value as u8;
                } else if item.tag == 9 {
                    current_report_count = item.unsigned_value();
                }
            },
            ItemType::Local => {
                if item.tag == 0 {
                    pending_usage = Some((item.unsigned_value() % 0x1_0000) as u16);
                }
            },
            ItemType::Main => {
                if item.tag == 8 {
                    let input_flags = item.unsigned_value();
                    if current_report_count != 1 {
                        return Err(DescriptorParseError::UnsupportedReportCount { count: current_report_count });
                    }
                    let usage_page = match current_usage_page {
                        Some(page) => page,
                        None => {
                            return Err(DescriptorParseError::MissingUsagePage);
                        },
                    };
                    let usage = match pending_usage {
                        Some(usage) => usage,
                        None => {
                            return Err(DescriptorParseError::MissingUsage);
                        },
                    };
                    let report_size = match current_report_size {
                        Some(size) => size,
                        None => {
                            return Err(DescriptorParseError::MissingReportSize);
                        },
                    };
                    let (logical_min, logical_max) = match (current_logical_min, current_logical_max) {
                        (Some(min), Some(max)) => (min, max),
                        _ => {
                            return Err(DescriptorParseError::MissingLogicalRange);
                        },
                    };
                    let is_constant = input_flags % 2 == 1;
                    if is_constant {
                        current_bit_offset = advance_bit_offset(current_bit_offset, report_size);
                        pending_usage = None;
                    } else {
                        let kind = if (input_flags / 2) % 2 == 1 {
                            FieldKind::Variable
                        } else {
                            FieldKind::Array
                        };
                        let field = ReportField {
                            report_id: current_report_id,
                            bit_offset: current_bit_offset,
                            bit_size: report_size,
                            logical_min,
                            logical_max,
                            usage: usage_from_parts(usage_page, usage),
                            kind,
                        };
                        match summary.push_field(field) {
                            Ok(()) => {},
                            Err(e) => {
                                return Err(DescriptorParseError::Summary(e));
                            },
                        }
                        current_bit_offset = advance_bit_offset(current_bit_offset, report_size);
                        pending_usage = None;
                    }
                }
            },
            ItemType::Reserved => {},
        }
        assert(spec_short_item(input@, old_offset as int) == Ok::<(ShortItem, int), ItemParseError>((item, offset as int)));
    }
    Ok(summary)
}

} // verus!
