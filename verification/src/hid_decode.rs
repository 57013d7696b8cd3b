//! HID report decoding against the lean v1 descriptor summary IR.
use vstd::prelude::*;
use crate::hid_descriptor::{FieldKind, ReportDescriptorSummary, ReportField, Usage};

verus! {

/// The maximum number of decoded fields supported by the fixed report.
pub const MAX_DECODED_FIELDS: usize = 32;

/// One decoded field value paired with its semantic usage.
#[derive(Debug, Clone, Copy, PartialEq, Eq, Structural)]
pub struct DecodedFieldValue {
    /// The semantic usage of the decoded field.
    pub usage: Usage,
    /// The decoded integer value.
    pub value: i32,
}

/// A fixed-capacity decoded report.
#[derive(Debug, Clone, Copy, PartialEq, Eq)]
pub struct DecodedReport {
    /// The fixed-capacity storage for decoded field values.
    pub fields: [Option<DecodedFieldValue>; 32],
    /// The number of populated decoded fields.
    pub field_count: usize,
}

/// Errors that can occur while decoding a report payload.
#[derive(Debug, Clone, Copy, PartialEq, Eq, Structural)]
pub enum DecodeError {
    /// The payload does not contain enough bits for the requested field.
    ReportTooShort {
        /// The number of bits required by the field.
        required_bits: usize,
        /// The number of bits actually available in the payload.
        actual_bits: usize,
    },
    /// The field uses a bit width that lean v1 does not decode yet.
    UnsupportedFieldSize {
        /// The unsupported field width in bits.
        bit_size: u8,
    },
    /// Too many fields were decoded into the fixed-capacity report.
    TooManyDecodedFields {
        /// The total number of decoded fields that was attempted.
        attempted: usize,
        /// The maximum supported number of decoded fields.
        max: usize,
    },
    /// Array-style fields are not decoded yet in lean v1.
    ArrayFieldsUnsupported,
}

// ---------------------------------------------------------------------------
// Mathematical model
// ---------------------------------------------------------------------------
/// 2 to the power `n`.
pub open spec fn bit_weight(n: nat) -> nat
    decreases n,
{
    if n == 0 {
        1
    } else {
        2 * bit_weight((n - 1) as nat)
    }
}

/// Bit `k` of the payload, counting from the least significant bit of byte 0.
pub open spec fn payload_bit(payload: Seq<u8>, k: int) -> u8 {
    (payload[k / 8] >> ((k % 8) as u8)) & 1u8
}

/// The unsigned value of the `n` payload bits starting at bit `offset`,
/// least significant bit first.
pub open spec fn bits_value(payload: Seq<u8>, offset: int, n: nat) -> nat
    decreases n,
{
    if n == 0 {
        0
    } else {
        bits_value(payload, offset, (n - 1) as nat) + (payload_bit(payload, offset + n - 1)
            as nat) * bit_weight((n - 1) as nat)
    }
}

/// The decoded value of one field: its raw bits, read as two's complement
/// when the logical minimum is negative.
pub open spec fn spec_field_value(field: ReportField, payload: Seq<u8>) -> Result<i32, DecodeError> {
    let size = field.bit_size;
    if !(size == 1 || size == 8 || size == 16) {
        Err(DecodeError::UnsupportedFieldSize { bit_size: size })
    } else if field.bit_offset + size > payload.len() * 8 {
        Err(
            DecodeError::ReportTooShort {
                required_bits: (field.bit_offset + size) as usize,
                actual_bits: (payload.len() * 8) as usize,
            },
        )
    } else {
        let raw = bits_value(payload, field.bit_offset as int, size as nat);
        if field.logical_min < 0 && raw >= bit_weight((size - 1) as nat) {
            Ok((raw - bit_weight(size as nat)) as i32)
        } else {
            Ok(raw as i32)
        }
    }
}

/// Decoding the given summary entries in order, keeping the fields of
/// `report_id`, or the first error met.
pub open spec fn spec_decode_entries(
    entries: Seq<Option<ReportField>>,
    report_id: u8,
    payload: Seq<u8>,
) -> Result<Seq<DecodedFieldValue>, DecodeError>
    decreases entries.len(),
{
    if entries.len() == 0 {
        Ok(Seq::empty())
    } else {
        match spec_decode_entries(entries.drop_last(), report_id, payload) {
            Err(e) => Err(e),
            Ok(acc) => match entries.last() {
                None => Ok(acc),
                Some(field) => {
                    if field.report_id != report_id {
                        Ok(acc)
                    } else if field.kind == FieldKind::Array {
                        Err(DecodeError::ArrayFieldsUnsupported)
                    } else if acc.len() >= 32 {
                        Err(
                            DecodeError::TooManyDecodedFields {
                                attempted: (acc.len() + 1) as usize,
                                max: 32,
                            },
                        )
                    } else {
                        match spec_field_value(field, payload) {
                            Err(e) => Err(e),
                            Ok(v) => Ok(acc.push(DecodedFieldValue { usage: field.usage, value: v })),
                        }
                    }
                },
            },
        }
    }
}

proof fn lemma_bit_is_binary(payload: Seq<u8>, k: int)
    requires
        0 <= k / 8 < payload.len(),
    ensures
        payload_bit(payload, k) <= 1,
{
    let b = payload[k / 8];
    let s = (k % 8) as u8;
    assert((b >> s) & 1u8 <= 1u8) by (bit_vector);
}

proof fn lemma_bits_value_bound(payload: Seq<u8>, offset: int, n: nat)
    requires
        offset >= 0,
        offset + n <= payload.len() * 8,
    ensures
        bits_value(payload, offset, n) < bit_weight(n),
    decreases n,
{
    if n > 0 {
        lemma_bits_value_bound(payload, offset, (n - 1) as nat);
        lemma_bit_is_binary(payload, offset + n - 1);
        let b = payload_bit(payload, offset + n - 1);
        assert(b == 0 || b == 1);
    }
}

impl DecodedReport {
    /// The report holds exactly `field_count` values, in the first slots.
    pub open spec fn wf(&self) -> bool {
        &&& self.field_count <= 32
        &&& forall|i: int| 0 <= i < self.field_count ==> (#[trigger] self.fields@[i]) is Some
        &&& forall|i: int| self.field_count <= i < 32 ==> (#[trigger] self.fields@[i]) is None
    }

    /// The populated decoded values, in order.
    pub open spec fn model(&self) -> Seq<DecodedFieldValue> {
        Seq::new(self.field_count as nat, |i: int| self.fields@[i]->0)
    }

    /// The entry seen at each index below `field_count` (empty past the storage).
    pub open spec fn entries(&self) -> Seq<Option<DecodedFieldValue>> {
        Seq::new(
            self.field_count as nat,
            |i: int|
                if i < 32 {
                    self.fields@[i]
                } else {
                    None
                },
        )
    }

    /// Returns the number of decoded fields in the report.
    pub fn field_count(&self) -> (r: usize)
        ensures
            r == self.field_count,
    {
        self.field_count
    }

    /// Returns whether the decoded report contains no fields.
    pub fn is_empty(&self) -> (r: bool)
        ensures
            r == (self.field_count == 0),
    {
        self.field_count == 0
    }

    /// Returns a copied decoded field by index if it is present.
    pub fn field(&self, index: usize) -> (r: Option<DecodedFieldValue>)
        ensures
            r == (if index < 32 {
                self.fields@[index as int]
            } else {
                None
            }),
    {
        if index < 32 {
            self.fields[index]
        } else {
            None
        }
    }
}

impl Default for DecodedReport {
    fn default() -> (r: Self)
        ensures
            r.wf(),
            r.field_count == 0,
            r.model() == Seq::<DecodedFieldValue>::empty(),
            forall|i: int| 0 <= i < 32 ==> (#[trigger] r.fields@[i]) is None,
    {
        let r = DecodedReport { fields: [None;32], field_count: 0 };
        assert(r.model() =~= Seq::<DecodedFieldValue>::empty());
        r
    }
}

fn extract_bits(bit_offset: usize, bit_size: u8, payload: &[u8]) -> (r: u32)
    requires
        bit_size <= 16,
        bit_offset + bit_size <= payload@.len() * 8,
        payload@.len() <= usize::MAX / 8,
    ensures
        r == bits_value(payload@, bit_offset as int, bit_size as nat),
{
    let mut raw: u32 = 0;
    let mut weight: u32 = 1;
    let mut bit_index: usize = 0;
    while bit_index < bit_size as usize
        invariant
            bit_size <= 16,
            bit_index <= bit_size,
            bit_offset + bit_size <= payload@.len() * 8,
            payload@.len() <= usize::MAX / 8,
            weight == bit_weight(bit_index as nat),
            raw == bits_value(payload@, bit_offset as int, bit_index as nat),
            weight <= 0x1_0000,
        decreases bit_size - bit_index,
    {
        let absolute_bit = bit_offset + bit_index;
        let byte_index = absolute_bit / 8;
        let bit_in_byte = (absolute_bit % 8) as u8;
        let bit = (payload[byte_index] >> bit_in_byte) & 1u8;
        proof {
            lemma_bit_is_binary(payload@, absolute_bit as int);
            lemma_bits_value_bound(payload@, bit_offset as int, bit_index as nat);
            if bit_index < 16 {
                lemma_weight_bound(bit_index as nat);
            }
        }
        assert(bit == 0 || bit == 1);
        assert(bit == payload_bit(payload@, absolute_bit as int));
        assert(bits_value(payload@, bit_offset as int, (bit_index + 1) as nat) == bits_value(
            payload@,
            bit_offset as int,
            bit_index as nat,
        ) + (bit as nat) * bit_weight(bit_index as nat));
        proof {
            let w = bit_weight(bit_index as nat);
            let bn = bit as nat;
            if bit == 1 {
                assert(bn * w == w) by (nonlinear_arith)
                    requires
                        bn == 1,
                ;
            } else {
                assert(bn * w == 0) by (nonlinear_arith)
                    requires
                        bn == 0,
                ;
            }
        }
        raw = if bit == 1 {
            raw + weight
        } else {
            raw
        };
        bit_index = bit_index + 1;
        weight = weight * 2;
    }
    raw
}

/// A field of n bits (n = 1, 8 or 16) that lies inside the payload decodes.
/// With a negative logical minimum its raw bits are read as two's
/// complement: the value lies in [-2^(n-1), 2^(n-1)) and differs from the raw
/// bits by a multiple of 2^n. Otherwise the value is the raw bits, in
/// [0, 2^n).
pub proof fn lemma_field_value_twos_complement(field: ReportField, payload: Seq<u8>)
    requires
        field.bit_size == 1 || field.bit_size == 8 || field.bit_size == 16,
        field.bit_offset + field.bit_size <= payload.len() * 8,
    ensures
        spec_field_value(field, payload) matches Ok(v) && ({
            let raw = bits_value(payload, field.bit_offset as int, field.bit_size as nat);
            let modulus: int = if field.bit_size == 1 {
                2
            } else if field.bit_size == 8 {
                256
            } else {
                65536
            };
            &&& 0 <= raw < modulus
            &&& field.logical_min < 0 ==> -(modulus / 2) <= v < modulus / 2 && (v - raw) % modulus
                == 0
            &&& field.logical_min >= 0 ==> v == raw
        }),
{
    lemma_bits_value_bound(payload, field.bit_offset as int, field.bit_size as nat);
    reveal_with_fuel(bit_weight, 17);
}

proof fn lemma_bit_of_byte(payload: Seq<u8>, byte: int, i: int)
    requires
        0 <= byte < payload.len(),
        0 <= i < 8,
    ensures
        payload_bit(payload, 8 * byte + i) == (payload[byte] >> (i as u8)) & 1u8,
{
    assert((8 * byte + i) / 8 == byte) by (nonlinear_arith)
        requires
            0 <= i < 8,
    ;
    assert((8 * byte + i) % 8 == i) by (nonlinear_arith)
        requires
            0 <= i < 8,
    ;
}

proof fn lemma_byte_from_bits(b: u8)
    ensures
        b == ((b >> 0u8) & 1u8) + 2 * ((b >> 1u8) & 1u8) + 4 * ((b >> 2u8) & 1u8) + 8 * ((b
            >> 3u8) & 1u8) + 16 * ((b >> 4u8) & 1u8) + 32 * ((b >> 5u8) & 1u8) + 64 * ((b >> 6u8)
            & 1u8) + 128 * ((b >> 7u8) & 1u8),
{
    assert(b == ((b >> 0u8) & 1u8) + 2 * ((b >> 1u8) & 1u8) + 4 * ((b >> 2u8) & 1u8) + 8 * ((b
        >> 3u8) & 1u8) + 16 * ((b >> 4u8) & 1u8) + 32 * ((b >> 5u8) & 1u8) + 64 * ((b >> 6u8)
        & 1u8) + 128 * ((b >> 7u8) & 1u8)) by (bit_vector);
}

proof fn lemma_bits_step(payload: Seq<u8>, offset: int, k: nat)
    ensures
        bits_value(payload, offset, k + 1) == bits_value(payload, offset, k) + (payload_bit(
            payload,
            offset + k,
        ) as nat) * bit_weight(k),
{
    assert(((k + 1) - 1) as nat == k);
}

proof fn lemma_byte_bits(payload: Seq<u8>, byte: int)
    requires
        0 <= byte < payload.len(),
    ensures
        bits_value(payload, 8 * byte, 8) == payload[byte],
{
    let b = payload[byte];
    let o = 8 * byte;
    reveal_with_fuel(bit_weight, 8);
    assert(bit_weight(0) == 1 && bit_weight(1) == 2 && bit_weight(2) == 4 && bit_weight(3) == 8
        && bit_weight(4) == 16 && bit_weight(5) == 32 && bit_weight(6) == 64 && bit_weight(7)
        == 128);
    lemma_bits_step(payload, o, 0);
    lemma_bits_step(payload, o, 1);
    lemma_bits_step(payload, o, 2);
    lemma_bits_step(payload, o, 3);
    lemma_bits_step(payload, o, 4);
    lemma_bits_step(payload, o, 5);
    lemma_bits_step(payload, o, 6);
    lemma_bits_step(payload, o, 7);
    lemma_bit_of_byte(payload, byte, 0);
    lemma_bit_of_byte(payload, byte, 1);
    lemma_bit_of_byte(payload, byte, 2);
    lemma_bit_of_byte(payload, byte, 3);
    lemma_bit_of_byte(payload, byte, 4);
    lemma_bit_of_byte(payload, byte, 5);
    lemma_bit_of_byte(payload, byte, 6);
    lemma_bit_of_byte(payload, byte, 7);
    lemma_byte_from_bits(b);
    assert(bits_value(payload, o, 0) == 0);
}

proof fn lemma_weight_product(n: nat, m: nat)
    ensures
        bit_weight(n + m) == bit_weight(n) * bit_weight(m),
    decreases m,
{
    if m > 0 {
        let k = (m - 1) as nat;
        lemma_weight_product(n, k);
        assert(n + m == (n + k) + 1);
        assert(bit_weight(n + m) == 2 * bit_weight(n + k));
        assert(bit_weight(m) == 2 * bit_weight(k));
        let a = bit_weight(n);
        let c = bit_weight(k);
        assert(a * (2 * c) == 2 * (a * c)) by (nonlinear_arith);
    } else {
        assert(n + m == n);
        assert(bit_weight(0) == 1);
        assert(bit_weight(n) * 1 == bit_weight(n));
    }
}

proof fn lemma_bits_split(payload: Seq<u8>, offset: int, n: nat, m: nat)
    ensures
        bits_value(payload, offset, n + m) == bits_value(payload, offset, n) + bit_weight(n)
            * bits_value(payload, offset + n, m),
    decreases m,
{
    if m > 0 {
        let k = (m - 1) as nat;
        lemma_bits_split(payload, offset, n, k);
        lemma_weight_product(n, k);
        lemma_bits_step(payload, offset, n + k);
        lemma_bits_step(payload, offset + n, k);
        assert(n + k + 1 == n + m);
        assert(offset + (n + k) == (offset + n) + k);
        let b = payload_bit(payload, offset + n + k) as nat;
        let w = bit_weight(n);
        let v = bits_value(payload, offset + n, k);
        let wk = bit_weight(k);
        assert(w * (v + b * wk) == w * v + b * (w * wk)) by (nonlinear_arith);
    } else {
        assert(n + m == n);
        assert(bits_value(payload, offset + n, 0) == 0);
        assert(bit_weight(n) * 0 == 0);
    }
}

/// A byte-aligned field is read from whole payload bytes, least significant
/// byte first: an 8-bit field at byte `k` is byte `k`, and a 16-bit field at
/// byte `k` is byte `k` plus 256 times byte `k + 1`; with a negative logical
/// minimum the 16-bit value is that word read as two's complement.
pub proof fn lemma_aligned_fields_are_little_endian(field: ReportField, payload: Seq<u8>, byte: int)
    requires
        field.bit_offset == 8 * byte,
        0 <= byte < payload.len(),
    ensures
        field.bit_size == 8 ==> spec_field_value(field, payload) == Ok::<i32, DecodeError>(
            if field.logical_min < 0 && payload[byte] >= 128 {
                (payload[byte] - 256) as i32
            } else {
                payload[byte] as i32
            },
        ),
        field.bit_size == 16 && byte + 1 < payload.len() ==> spec_field_value(field, payload) == Ok::<
            i32,
            DecodeError,
        >(
            {
                let word = payload[byte] + 256 * payload[byte + 1];
                if field.logical_min < 0 && word >= 32768 {
                    (word - 65536) as i32
                } else {
                    word as i32
                }
            },
        ),
{
    reveal_with_fuel(bit_weight, 17);
    lemma_byte_bits(payload, byte);
    if byte + 1 < payload.len() {
        lemma_byte_bits(payload, byte + 1);
        lemma_bits_split(payload, 8 * byte, 8, 8);
        assert(8 * byte + 8 == 8 * (byte + 1));
    }
}

proof fn lemma_weight_monotonic(n: nat, m: nat)
    requires
        n <= m,
    ensures
        bit_weight(n) <= bit_weight(m),
    decreases m,
{
    if n < m {
        lemma_weight_monotonic(n, (m - 1) as nat);
    }
}

proof fn lemma_weight_bound(n: nat)
    requires
        n < 16,
    ensures
        bit_weight(n) <= 0x8000,
{
    lemma_weight_monotonic(n, 15);
    reveal_with_fuel(bit_weight, 16);
}

/// Once decoding a prefix of the entries fails, decoding any longer prefix
/// fails with the same error.
proof fn lemma_decode_error_persists(
    entries: Seq<Option<ReportField>>,
    report_id: u8,
    payload: Seq<u8>,
    k: int,
    m: int,
)
    requires
        0 <= k <= m <= entries.len(),
        spec_decode_entries(entries.take(k), report_id, payload) is Err,
    ensures
        spec_decode_entries(entries.take(m), report_id, payload) == spec_decode_entries(
            entries.take(k),
            report_id,
            payload,
        ),
    decreases m - k,
{
    if k < m {
        lemma_decode_error_persists(entries, report_id, payload, k, m - 1);
        assert(entries.take(m).drop_last() =~= entries.take(m - 1));
    }
}

/// Decodes all matching fields from a payload for one report identifier.
pub fn decode_report(summary: &ReportDescriptorSummary, report_id: u8, payload: &[u8]) -> (r: Result<
    DecodedReport,
    DecodeError,
>)
    requires
        payload@.len() <= usize::MAX / 8,
    ensures
        match spec_decode_entries(summary.entries(), report_id, payload@) {
            Ok(values) => r matches Ok(d) && d.wf() && d.model() == values,
            Err(e) => r == Err::<DecodedReport, DecodeError>(e),
        },
{
    let mut decoded = DecodedReport::default();
    let mut index: usize = 0;
    while index < summary.field_count()
        invariant
            index <= summary.field_count,
            payload@.len() <= usize::MAX / 8,
            decoded.wf(),
            spec_decode_entries(summary.entries().take(index as int), report_id, payload@) == Ok::<
                Seq<DecodedFieldValue>,
                DecodeError,
            >(decoded.model()),
        decreases summary.field_count - index,
    {
        let ghost prefix = summary.entries().take(index as int);
        assert(summary.entries().take(index + 1).drop_last() =~= prefix);
        let entry = summary.field(index);
        assert(summary.entries().take(index + 1).last() == entry);
        index = index + 1;
        let field = match entry {
            Some(field) => field,
            None => {
                continue;
            },
        };
        if field.report_id != report_id {
            continue;
        }
        if field.kind == FieldKind::Array {
            proof {
                lemma_decode_error_persists(summary.entries(), report_id, payload@, index as int, summary.entries().len() as int);
                assert(summary.entries().take(summary.entries().len() as int) =~= summary.entries());
            }
            return Err(DecodeError::ArrayFieldsUnsupported);
        }
        if decoded.field_count >= MAX_DECODED_FIELDS {
            proof {
                lemma_decode_error_persists(summary.entries(), report_id, payload@, index as int, summary.entries().len() as int);
                assert(summary.entries().take(summary.entries().len() as int) =~= summary.entries());
            }
            return Err(DecodeError::TooManyDecodedFields { attempted: decoded.field_count + 1, max: MAX_DECODED_FIELDS });
        }
        let value = match decode_field_value(field, payload) {
            Ok(value) => value,
            Err(e) => {
                proof {
                    lemma_decode_error_persists(summary.entries(), report_id, payload@, index as int, summary.entries().len() as int);
                    assert(summary.entries().take(summary.entries().len() as int) =~= summary.entries());
                }
                return Err(e);
            },
        };
        let ghost old_model = decoded.model();
        let slot = decoded.field_count;
        decoded.fields[slot] = Some(DecodedFieldValue { usage: field.usage, value });
        decoded.field_count = slot + 1;
        assert(decoded.model() =~= old_model.push(DecodedFieldValue { usage: field.usage, value }));
    }
    assert(summary.entries().take(index as int) =~= summary.entries());
    Ok(decoded)
}

/// Decodes one field value from the raw payload bits.
pub fn decode_field_value(field: ReportField, payload: &[u8]) -> (r: Result<i32, DecodeError>)
    requires
        payload@.len() <= usize::MAX / 8,
    ensures
        r == spec_field_value(field, payload@),
{
    if !(field.bit_size == 1 || field.bit_size == 8 || field.bit_size == 16) {
        return Err(DecodeError::UnsupportedFieldSize { bit_size: field.bit_size });
    }
    let required_bits = field.bit_offset as usize + field.bit_size as usize;
    let actual_bits = payload.len() * 8;
    if required_bits > actual_bits {
        return Err(DecodeError::ReportTooShort { required_bits, actual_bits });
    }
    let raw = extract_bits(field.bit_offset as usize, field.bit_size, payload);
    proof {
        lemma_bits_value_bound(payload@, field.bit_offset as int, field.bit_size as nat);
        reveal_with_fuel(bit_weight, 17);
    }
    let (half, full): (u32, i32) = if field.bit_size == 1 {
        (1, 2)
    } else if field.bit_size == 8 {
        (0x80, 0x100)
    } else {
        (0x8000, 0x1_0000)
    };
    if field.logical_min < 0 && raw >= half {
        Ok((raw as i32) - full)
    } else {
        Ok(raw as i32)
    }
}

} // verus!
