use vstd::prelude::*;

use crate::icon::Icon;
use crate::keys::WireKey;
use crate::types::{
    opt_accessor_view, opt_accessor_wf, opt_str_view, static_image_len, AccessorModel, DataAccessorData,
    DynamicImageFrameData, DynamicImageModel, FrameModel, FrameModifiersData, ImageFrameData,
    ImageModel, LineContent, LineContentModel, LineData, LineModel, MultiLineFrameData,
    MultiLineModel, ProgressBarModifierData, RangeModel, RangeScreenData, Repeat, ScreenData,
    ScreenDataModel, ScreenFrameData, SingleLineFrameData, SingleLineModel,
    TextModel, TextModifierData, APEX_IMAGE_LEN, ARCTIS_PRO_IMAGE_LEN, GAMEDAC_IMAGE_LEN,
    RIVAL_IMAGE_LEN,
};
use crate::wire::{
    fields_view, find_field, group_lookup, items_view, lemma_array_view, lemma_object_view,
    lookup, push_field, Fields, WireValue, WireView,
};

verus! {

broadcast use group_lookup, crate::keys::lemma_names_distinct;

/// Why a value could not be encoded or decoded, naming the offending field; an error
/// inside an item of a list names the list and the item's position, so that together
/// they give the field's path.
#[derive(Debug, PartialEq, Eq)]
pub enum CodecError {
    /// The item at this position of this list field is wrong, for the nested reason.
    Item(WireKey, usize, Box<CodecError>),
    /// The value should have been an object.
    NotAnObject,
    /// The value should have been an array.
    NotAnArray,
    /// A field that the shape requires is absent.
    Missing(WireKey),
    /// A field holds a value of the wrong kind or out of range.
    Invalid(WireKey),
    /// An image buffer does not have the size of its screen.
    ImageLength(WireKey),
    /// The object matches none of the frame shapes.
    NoShape,
}

pub open spec fn key(k: WireKey) -> Seq<char> {
    k.spec_name()
}

pub open spec fn in_i32(n: int) -> bool {
    i32::MIN <= n <= i32::MAX
}

pub open spec fn field_i32(fs: Fields, k: WireKey) -> Result<i32, CodecError> {
    match lookup(fs, key(k)) {
        Some(WireView::Int(n)) => if in_i32(n) { Ok(n as i32) } else { Err(CodecError::Invalid(k)) },
        Some(_) => Err(CodecError::Invalid(k)),
        None => Err(CodecError::Missing(k)),
    }
}

pub open spec fn field_bool(fs: Fields, k: WireKey) -> Result<bool, CodecError> {
    match lookup(fs, key(k)) {
        Some(WireView::Bool(b)) => Ok(b),
        Some(_) => Err(CodecError::Invalid(k)),
        None => Err(CodecError::Missing(k)),
    }
}

pub open spec fn field_str(fs: Fields, k: WireKey) -> Result<Seq<char>, CodecError> {
    match lookup(fs, key(k)) {
        Some(WireView::Str(s)) => Ok(s),
        Some(_) => Err(CodecError::Invalid(k)),
        None => Err(CodecError::Missing(k)),
    }
}

/// An optional string field: absent is `None`, a string is `Some`.
pub open spec fn field_opt_str(fs: Fields, k: WireKey) -> Result<Option<Seq<char>>, CodecError> {
    match lookup(fs, key(k)) {
        Some(WireView::Str(s)) => Ok(Some(s)),
        Some(_) => Err(CodecError::Invalid(k)),
        None => Ok(None),
    }
}

fn get_i32(fs: &Vec<(String, WireValue)>, k: WireKey) -> (r: Result<i32, CodecError>)
    ensures
        r == field_i32(fields_view(*fs), k),
{
    match find_field(fs, k.name()) {
        Some(WireValue::Int(n)) => if i32::MIN as i64 <= *n && *n <= i32::MAX as i64 {
            Ok(*n as i32)
        } else {
            Err(CodecError::Invalid(k))
        },
        Some(_) => Err(CodecError::Invalid(k)),
        None => Err(CodecError::Missing(k)),
    }
}

fn get_bool(fs: &Vec<(String, WireValue)>, k: WireKey) -> (r: Result<bool, CodecError>)
    ensures
        r == field_bool(fields_view(*fs), k),
{
    match find_field(fs, k.name()) {
        Some(WireValue::Bool(b)) => Ok(*b),
        Some(_) => Err(CodecError::Invalid(k)),
        None => Err(CodecError::Missing(k)),
    }
}

fn get_str(fs: &Vec<(String, WireValue)>, k: WireKey) -> (r: Result<String, CodecError>)
    ensures
        match r {
            Ok(s) => field_str(fields_view(*fs), k) == Ok::<Seq<char>, CodecError>(s@),
            Err(e) => field_str(fields_view(*fs), k) == Err::<Seq<char>, CodecError>(e),
        },
{
    match find_field(fs, k.name()) {
        Some(WireValue::Str(s)) => Ok(s.clone()),
        Some(_) => Err(CodecError::Invalid(k)),
        None => Err(CodecError::Missing(k)),
    }
}

fn get_opt_str(fs: &Vec<(String, WireValue)>, k: WireKey) -> (r: Result<Option<String>, CodecError>)
    ensures
        match r {
            Ok(s) => field_opt_str(fields_view(*fs), k) == Ok::<Option<Seq<char>>, CodecError>(opt_str_view(s)),
            Err(e) => field_opt_str(fields_view(*fs), k) == Err::<Option<Seq<char>>, CodecError>(e),
        },
{
    match find_field(fs, k.name()) {
        Some(WireValue::Str(s)) => Ok(Some(s.clone())),
        Some(_) => Err(CodecError::Invalid(k)),
        None => Ok(None),
    }
}

// ---- repetition and frame modifiers ----

/// `Infinite` goes on the wire as a boolean, `Counts` as an integer.
pub open spec fn enc_repeat(r: Repeat) -> WireView {
    match r {
        Repeat::Infinite(b) => WireView::Bool(b),
        Repeat::Counts(n) => WireView::Int(n as int),
    }
}

/// A boolean is `Infinite`, an integer is `Counts`.
pub open spec fn dec_repeat(w: WireView) -> Result<Repeat, CodecError> {
    match w {
        WireView::Bool(b) => Ok(Repeat::Infinite(b)),
        WireView::Int(n) => if in_i32(n) {
            Ok(Repeat::Counts(n as i32))
        } else {
            Err(CodecError::Invalid(WireKey::Repeats))
        },
        _ => Err(CodecError::Invalid(WireKey::Repeats)),
    }
}

pub fn encode_repeat(r: Repeat) -> (w: WireValue)
    ensures
        w@ == enc_repeat(r),
{
    match r {
        Repeat::Infinite(b) => WireValue::Bool(b),
        Repeat::Counts(n) => WireValue::Int(n as i64),
    }
}

pub fn decode_repeat(w: &WireValue) -> (r: Result<Repeat, CodecError>)
    ensures
        r == dec_repeat(w@),
{
    match w {
        WireValue::Bool(b) => Ok(Repeat::Infinite(*b)),
        WireValue::Int(n) => if i32::MIN as i64 <= *n && *n <= i32::MAX as i64 {
            Ok(Repeat::Counts(*n as i32))
        } else {
            Err(CodecError::Invalid(WireKey::Repeats))
        },
        _ => Err(CodecError::Invalid(WireKey::Repeats)),
    }
}

pub open spec fn enc_mods(m: FrameModifiersData) -> Fields {
    Seq::empty()
            .push((key(WireKey::LengthMillis), WireView::Int(m.length_millis as int)))
            .push((key(WireKey::IconId), WireView::Int(m.icon_id.spec_code() as int)))
            .push((key(WireKey::Repeats), enc_repeat(m.repeats)))
}

/// Absent modifiers put no field on the wire.
pub open spec fn enc_opt_mods(m: Option<FrameModifiersData>) -> Fields {
    match m {
        Some(m) => enc_mods(m),
        None => Seq::empty(),
    }
}

pub open spec fn field_icon(fs: Fields) -> Result<Icon, CodecError> {
    match lookup(fs, key(WireKey::IconId)) {
        Some(WireView::Int(n)) => match Icon::spec_from_code(n) {
            Some(i) => Ok(i),
            None => Err(CodecError::Invalid(WireKey::IconId)),
        },
        Some(_) => Err(CodecError::Invalid(WireKey::IconId)),
        None => Err(CodecError::Missing(WireKey::IconId)),
    }
}

pub open spec fn field_repeat(fs: Fields) -> Result<Repeat, CodecError> {
    match lookup(fs, key(WireKey::Repeats)) {
        Some(w) => dec_repeat(w),
        None => Err(CodecError::Missing(WireKey::Repeats)),
    }
}

/// Modifiers are absent when none of their fields is there; else all three are needed.
pub open spec fn dec_mods(fs: Fields) -> Result<Option<FrameModifiersData>, CodecError> {
    if lookup(fs, key(WireKey::LengthMillis)) is None && lookup(fs, key(WireKey::IconId)) is None
        && lookup(fs, key(WireKey::Repeats)) is None {
        Ok(None)
    } else {
        match field_i32(fs, WireKey::LengthMillis) {
            Err(e) => Err(e),
            Ok(length_millis) => match field_icon(fs) {
                Err(e) => Err(e),
                Ok(icon_id) => match field_repeat(fs) {
                    Err(e) => Err(e),
                    Ok(repeats) => Ok(Some(FrameModifiersData { length_millis, icon_id, repeats })),
                },
            },
        }
    }
}

pub fn push_mods(m: &Option<FrameModifiersData>, out: &mut Vec<(String, WireValue)>)
    ensures
        fields_view(*final(out)) == fields_view(*old(out)) + enc_opt_mods(*m),
{
    match m {
        Some(m) => {
            push_field(out, WireKey::LengthMillis.name(), WireValue::Int(m.length_millis as i64));
            push_field(out, WireKey::IconId.name(), WireValue::Int(m.icon_id.code() as i64));
            push_field(out, WireKey::Repeats.name(), encode_repeat(m.repeats));
            assert(fields_view(*final(out)) =~= fields_view(*old(out)) + enc_opt_mods(Some(*m)));
        },
        None => {
            assert(fields_view(*final(out)) =~= fields_view(*old(out)) + enc_opt_mods(None));
        },
    }
}

pub fn decode_mods(fs: &Vec<(String, WireValue)>) -> (r: Result<Option<FrameModifiersData>, CodecError>)
    ensures
        r == dec_mods(fields_view(*fs)),
{
    let a = find_field(fs, WireKey::LengthMillis.name());
    let b = find_field(fs, WireKey::IconId.name());
    let c = find_field(fs, WireKey::Repeats.name());
    if a.is_none() && b.is_none() && c.is_none() {
        return Ok(None);
    }
    let length_millis = match get_i32(fs, WireKey::LengthMillis) {
        Ok(n) => n,
        Err(e) => return Err(e),
    };
    let icon_id = match b {
        Some(WireValue::Int(n)) => match Icon::from_code(*n) {
            Some(i) => i,
            None => return Err(CodecError::Invalid(WireKey::IconId)),
        },
        Some(_) => return Err(CodecError::Invalid(WireKey::IconId)),
        None => return Err(CodecError::Missing(WireKey::IconId)),
    };
    let repeats = match c {
        Some(w) => match decode_repeat(w) {
            Ok(r) => r,
            Err(e) => return Err(e),
        },
        None => return Err(CodecError::Missing(WireKey::Repeats)),
    };
    Ok(Some(FrameModifiersData { length_millis, icon_id, repeats }))
}

// ---- line content, data accessors and lines ----

pub open spec fn enc_content(c: LineContentModel) -> Fields {
    match c {
        LineContentModel::Text(t) => Seq::empty()
            .push((key(WireKey::HasText), WireView::Bool(t.has_text)))
            .push((key(WireKey::Prefix), WireView::Str(t.prefix)))
            .push((key(WireKey::Suffix), WireView::Str(t.suffix)))
            .push((key(WireKey::Bold), WireView::Bool(t.bold)))
            .push((key(WireKey::Wrap), WireView::Int(t.wrap as int))),
        LineContentModel::ProgressBar(p) => Seq::empty()
            .push((key(WireKey::HasProgressBar), WireView::Bool(p.has_progress_bar))),
    }
}

/// A progress-bar flag makes the content a progress bar; otherwise it is text.
pub open spec fn dec_content(fs: Fields) -> Result<LineContentModel, CodecError> {
    if lookup(fs, key(WireKey::HasProgressBar)) is Some {
        match field_bool(fs, WireKey::HasProgressBar) {
            Ok(b) => Ok(LineContentModel::ProgressBar(ProgressBarModifierData { has_progress_bar: b })),
            Err(e) => Err(e),
        }
    } else {
        match field_bool(fs, WireKey::HasText) {
            Err(e) => Err(e),
            Ok(has_text) => match field_str(fs, WireKey::Prefix) {
                Err(e) => Err(e),
                Ok(prefix) => match field_str(fs, WireKey::Suffix) {
                    Err(e) => Err(e),
                    Ok(suffix) => match field_bool(fs, WireKey::Bold) {
                        Err(e) => Err(e),
                        Ok(bold) => match field_i32(fs, WireKey::Wrap) {
                            Err(e) => Err(e),
                            Ok(wrap) => Ok(LineContentModel::Text(TextModel { has_text, prefix, suffix, bold, wrap })),
                        },
                    },
                },
            },
        }
    }
}

pub open spec fn enc_opt_str(k: WireKey, s: Option<Seq<char>>) -> Fields {
    match s {
        Some(s) => seq![(key(k), WireView::Str(s))],
        None => Seq::empty(),
    }
}

pub open spec fn enc_opt_accessor(a: Option<AccessorModel>) -> Fields {
    match a {
        Some(a) => enc_opt_str(WireKey::Arg, a.arg) + enc_opt_str(WireKey::ContextFrameKey, a.context_frame_key),
        None => Seq::empty(),
    }
}

/// An accessor is absent when neither of its fields is there.
pub open spec fn dec_accessor(fs: Fields) -> Result<Option<AccessorModel>, CodecError> {
    match field_opt_str(fs, WireKey::Arg) {
        Err(e) => Err(e),
        Ok(arg) => match field_opt_str(fs, WireKey::ContextFrameKey) {
            Err(e) => Err(e),
            Ok(context_frame_key) => if arg is None && context_frame_key is None {
                Ok(None)
            } else {
                Ok(Some(AccessorModel { arg, context_frame_key }))
            },
        },
    }
}

pub open spec fn enc_line_fields(l: LineModel) -> Fields {
    enc_content(l.content) + enc_opt_accessor(l.data_accessor_data)
}

pub open spec fn dec_line_fields(fs: Fields) -> Result<LineModel, CodecError> {
    match dec_content(fs) {
        Err(e) => Err(e),
        Ok(content) => match dec_accessor(fs) {
            Err(e) => Err(e),
            Ok(data_accessor_data) => Ok(LineModel { content, data_accessor_data }),
        },
    }
}

pub open spec fn enc_line(l: LineModel) -> WireView {
    WireView::Object(enc_line_fields(l))
}

pub open spec fn dec_line(w: WireView) -> Result<LineModel, CodecError> {
    match w {
        WireView::Object(fs) => dec_line_fields(fs),
        _ => Err(CodecError::NotAnObject),
    }
}

pub fn push_content(c: &LineContent, out: &mut Vec<(String, WireValue)>)
    ensures
        fields_view(*final(out)) == fields_view(*old(out)) + enc_content(c@),
{
    match c {
        LineContent::Text(t) => {
            push_field(out, WireKey::HasText.name(), WireValue::Bool(t.has_text));
            push_field(out, WireKey::Prefix.name(), WireValue::Str(t.prefix.clone()));
            push_field(out, WireKey::Suffix.name(), WireValue::Str(t.suffix.clone()));
            push_field(out, WireKey::Bold.name(), WireValue::Bool(t.bold));
            push_field(out, WireKey::Wrap.name(), WireValue::Int(t.wrap as i64));
        },
        LineContent::ProgressBar(p) => {
            push_field(out, WireKey::HasProgressBar.name(), WireValue::Bool(p.has_progress_bar));
        },
    }
    assert(fields_view(*final(out)) =~= fields_view(*old(out)) + enc_content(c@));
}

pub fn decode_content(fs: &Vec<(String, WireValue)>) -> (r: Result<LineContent, CodecError>)
    ensures
        match r {
            Ok(c) => dec_content(fields_view(*fs)) == Ok::<LineContentModel, CodecError>(c@),
            Err(e) => dec_content(fields_view(*fs)) == Err::<LineContentModel, CodecError>(e),
        },
{
    if find_field(fs, WireKey::HasProgressBar.name()).is_some() {
        match get_bool(fs, WireKey::HasProgressBar) {
            Ok(b) => Ok(LineContent::ProgressBar(ProgressBarModifierData { has_progress_bar: b })),
            Err(e) => Err(e),
        }
    } else {
        let has_text = match get_bool(fs, WireKey::HasText) {
            Ok(b) => b,
            Err(e) => return Err(e),
        };
        let prefix = match get_str(fs, WireKey::Prefix) {
            Ok(s) => s,
            Err(e) => return Err(e),
        };
        let suffix = match get_str(fs, WireKey::Suffix) {
            Ok(s) => s,
            Err(e) => return Err(e),
        };
        let bold = match get_bool(fs, WireKey::Bold) {
            Ok(b) => b,
            Err(e) => return Err(e),
        };
        let wrap = match get_i32(fs, WireKey::Wrap) {
            Ok(n) => n,
            Err(e) => return Err(e),
        };
        Ok(LineContent::Text(TextModifierData { has_text, prefix, suffix, bold, wrap }))
    }
}

fn push_accessor(a: &Option<DataAccessorData>, out: &mut Vec<(String, WireValue)>)
    ensures
        fields_view(*final(out)) == fields_view(*old(out)) + enc_opt_accessor(opt_accessor_view(*a)),
{
    if let Some(a) = a {
        let ghost mid = fields_view(*old(out));
        if let Some(s) = &a.arg {
            push_field(out, WireKey::Arg.name(), WireValue::Str(s.clone()));
        }
        assert(fields_view(*out) =~= mid + enc_opt_str(WireKey::Arg, opt_str_view(a.arg)));
        let ghost mid2 = fields_view(*out);
        if let Some(s) = &a.context_frame_key {
            push_field(out, WireKey::ContextFrameKey.name(), WireValue::Str(s.clone()));
        }
        assert(fields_view(*out) =~= mid2 + enc_opt_str(WireKey::ContextFrameKey, opt_str_view(a.context_frame_key)));
    }
    assert(fields_view(*final(out)) =~= fields_view(*old(out)) + enc_opt_accessor(opt_accessor_view(*a)));
}

pub fn decode_accessor(fs: &Vec<(String, WireValue)>) -> (r: Result<Option<DataAccessorData>, CodecError>)
    ensures
        match r {
            Ok(a) => dec_accessor(fields_view(*fs)) == Ok::<Option<AccessorModel>, CodecError>(opt_accessor_view(a)),
            Err(e) => dec_accessor(fields_view(*fs)) == Err::<Option<AccessorModel>, CodecError>(e),
        },
{
    let arg = match get_opt_str(fs, WireKey::Arg) {
        Ok(s) => s,
        Err(e) => return Err(e),
    };
    let context_frame_key = match get_opt_str(fs, WireKey::ContextFrameKey) {
        Ok(s) => s,
        Err(e) => return Err(e),
    };
    if arg.is_none() && context_frame_key.is_none() {
        Ok(None)
    } else {
        Ok(Some(DataAccessorData { arg, context_frame_key }))
    }
}

fn encode_line(l: &LineData) -> (w: WireValue)
    ensures
        w@ == enc_line(l@),
{
    let mut fs: Vec<(String, WireValue)> = Vec::new();
    push_content(&l.content, &mut fs);
    push_accessor(&l.data_accessor_data, &mut fs);
    assert(fields_view(fs) =~= enc_line_fields(l@));
    proof { lemma_object_view(fs); }
    WireValue::Object(fs)
}

pub fn decode_line_fields(fs: &Vec<(String, WireValue)>) -> (r: Result<LineData, CodecError>)
    ensures
        match r {
            Ok(l) => dec_line_fields(fields_view(*fs)) == Ok::<LineModel, CodecError>(l@),
            Err(e) => dec_line_fields(fields_view(*fs)) == Err::<LineModel, CodecError>(e),
        },
{
    let content = match decode_content(fs) {
        Ok(c) => c,
        Err(e) => return Err(e),
    };
    let data_accessor_data = match decode_accessor(fs) {
        Ok(a) => a,
        Err(e) => return Err(e),
    };
    Ok(LineData { content, data_accessor_data })
}

pub fn decode_line(w: &WireValue) -> (r: Result<LineData, CodecError>)
    ensures
        match r {
            Ok(l) => dec_line(w@) == Ok::<LineModel, CodecError>(l@),
            Err(e) => dec_line(w@) == Err::<LineModel, CodecError>(e),
        },
{
    match w {
        WireValue::Object(fs) => {
            proof { lemma_object_view(*fs); }
            decode_line_fields(fs)
        },
        _ => Err(CodecError::NotAnObject),
    }
}

/// A line read back from its encoding is the line itself.
pub proof fn lemma_line_round_trip(l: LineModel)
    requires
        opt_accessor_wf(l.data_accessor_data),
    ensures
        dec_line(enc_line(l)) == Ok::<LineModel, CodecError>(l),
{
    let fs = enc_line_fields(l);
    assert(dec_content(fs) == Ok::<LineContentModel, CodecError>(l.content));
    assert(dec_accessor(fs) == Ok::<Option<AccessorModel>, CodecError>(l.data_accessor_data));
}

// ---- image buffers ----

/// An image buffer goes on the wire as an array of its bytes.
pub open spec fn enc_bytes(b: Seq<u8>) -> WireView {
    WireView::Array(Seq::new(b.len(), |i: int| WireView::Int(b[i] as int)))
}

pub open spec fn is_byte(w: WireView) -> bool {
    w matches WireView::Int(n) && 0 <= n <= 255
}

/// The UTF-8 encoding of one character.
pub open spec fn utf8_char(c: char) -> Seq<u8> {
    let n = c as u32 as int;
    if n < 0x80 {
        seq![n as u8]
    } else if n < 0x800 {
        seq![(0xC0 + n / 64) as u8, (0x80 + n % 64) as u8]
    } else if n < 0x10000 {
        seq![(0xE0 + n / 4096) as u8, (0x80 + (n / 64) % 64) as u8, (0x80 + n % 64) as u8]
    } else {
        seq![
            (0xF0 + n / 262144) as u8,
            (0x80 + (n / 4096) % 64) as u8,
            (0x80 + (n / 64) % 64) as u8,
            (0x80 + n % 64) as u8,
        ]
    }
}

/// The UTF-8 encoding of the first `n` characters of `s`.
pub open spec fn utf8_upto(s: Seq<char>, n: int) -> Seq<u8>
    decreases n,
{
    if n <= 0 {
        Seq::empty()
    } else {
        utf8_upto(s, n - 1) + utf8_char(s[n - 1])
    }
}

/// An image buffer is read from an array of bytes, or from a string as its UTF-8 bytes.
pub open spec fn dec_bytes(w: WireView, k: WireKey) -> Result<Seq<u8>, CodecError> {
    match w {
        WireView::Str(s) => Ok(utf8_upto(s, s.len() as int)),
        WireView::Array(items) => if forall|i: int| 0 <= i < items.len() ==> is_byte(#[trigger] items[i]) {
            Ok(Seq::new(items.len(), |i: int| items[i]->Int_0 as u8))
        } else {
            Err(CodecError::Invalid(k))
        },
        _ => Err(CodecError::Invalid(k)),
    }
}

pub fn encode_bytes(b: &Vec<u8>) -> (w: WireValue)
    ensures
        w@ == enc_bytes(b@),
{
    let mut items: Vec<WireValue> = Vec::new();
    let mut i: usize = 0;
    while i < b.len()
        invariant
            0 <= i <= b.len(),
            items.len() == i,
            forall|j: int| 0 <= j < i ==> (#[trigger] items[j])@ == WireView::Int(b[j] as int),
        decreases b.len() - i,
    {
        items.push(WireValue::Int(b[i] as i64));
        i = i + 1;
    }
    proof { lemma_array_view(items); }
    assert(items_view(items) =~= enc_bytes(b@)->Array_0);
    WireValue::Array(items)
}

fn push_utf8_char(out: &mut Vec<u8>, c: char)
    ensures
        final(out)@ == old(out)@ + utf8_char(c),
{
    let n = c as u32;
    if n < 0x80 {
        out.push(n as u8);
    } else if n < 0x800 {
        out.push((0xC0 + n / 64) as u8);
        out.push((0x80 + n % 64) as u8);
    } else if n < 0x10000 {
        out.push((0xE0 + n / 4096) as u8);
        out.push((0x80 + (n / 64) % 64) as u8);
        out.push((0x80 + n % 64) as u8);
    } else {
        out.push((0xF0 + n / 262144) as u8);
        out.push((0x80 + (n / 4096) % 64) as u8);
        out.push((0x80 + (n / 64) % 64) as u8);
        out.push((0x80 + n % 64) as u8);
    }
    assert(final(out)@ =~= old(out)@ + utf8_char(c));
}

/// The UTF-8 bytes of `s`.
fn utf8_bytes(s: &String) -> (r: Vec<u8>)
    ensures
        r@ == utf8_upto(s@, s@.len() as int),
{
    let text = s.as_str();
    let len = text.unicode_len();
    let mut out: Vec<u8> = Vec::new();
    let mut i: usize = 0;
    while i < len
        invariant
            0 <= i <= len,
            len == s@.len(),
            text@ == s@,
            out@ == utf8_upto(s@, i as int),
        decreases len - i,
    {
        let c = text.get_char(i);
        push_utf8_char(&mut out, c);
        i = i + 1;
    }
    out
}

pub fn decode_bytes(w: &WireValue, k: WireKey) -> (r: Result<Vec<u8>, CodecError>)
    ensures
        match r {
            Ok(b) => dec_bytes(w@, k) == Ok::<Seq<u8>, CodecError>(b@),
            Err(e) => dec_bytes(w@, k) == Err::<Seq<u8>, CodecError>(e),
        },
{
    match w {
        WireValue::Str(s) => Ok(utf8_bytes(s)),
        WireValue::Array(items) => {
            proof { lemma_array_view(*items); }
            let ghost iv = items_view(*items);
            let mut out: Vec<u8> = Vec::new();
            let mut i: usize = 0;
            while i < items.len()
                invariant
                    0 <= i <= items.len(),
                    iv == items_view(*items),
                    w@ == WireView::Array(iv),
                    out.len() == i,
                    forall|j: int| 0 <= j < i ==> is_byte(#[trigger] iv[j]),
                    forall|j: int| 0 <= j < i ==> out[j] == iv[j]->Int_0 as u8,
                decreases items.len() - i,
            {
                match &items[i] {
                    WireValue::Int(n) => {
                        if 0 <= *n && *n <= 255 {
                            out.push(*n as u8);
                        } else {
                            assert(!is_byte(iv[i as int]));
                            assert(w@ == WireView::Array(iv));
                            return Err(CodecError::Invalid(k));
                        }
                    },
                    _ => {
                        assert(!is_byte(iv[i as int]));
                        assert(w@ == WireView::Array(iv));
                        return Err(CodecError::Invalid(k));
                    },
                }
                i = i + 1;
            }
            assert(out@ =~= Seq::new(iv.len(), |j: int| iv[j]->Int_0 as u8));
            assert(w@ == WireView::Array(iv));
            Ok(out)
        },
        _ => Err(CodecError::Invalid(k)),
    }
}

/// The image in field `k`, which must hold exactly `len` bytes.
pub open spec fn field_image(fs: Fields, k: WireKey, len: nat) -> Result<Seq<u8>, CodecError> {
    match lookup(fs, key(k)) {
        None => Err(CodecError::Missing(k)),
        Some(w) => match dec_bytes(w, k) {
            Err(e) => Err(e),
            Ok(b) => if b.len() == len { Ok(b) } else { Err(CodecError::ImageLength(k)) },
        },
    }
}

fn get_image(fs: &Vec<(String, WireValue)>, k: WireKey, len: usize) -> (r: Result<Vec<u8>, CodecError>)
    ensures
        match r {
            Ok(b) => field_image(fields_view(*fs), k, len as nat) == Ok::<Seq<u8>, CodecError>(b@),
            Err(e) => field_image(fields_view(*fs), k, len as nat) == Err::<Seq<u8>, CodecError>(e),
        },
{
    match find_field(fs, k.name()) {
        None => Err(CodecError::Missing(k)),
        Some(w) => match decode_bytes(w, k) {
            Err(e) => Err(e),
            Ok(b) => if b.len() == len { Ok(b) } else { Err(CodecError::ImageLength(k)) },
        },
    }
}

/// The first buffer of a per-device image whose size is wrong, if any.
pub open spec fn dyn_image_error(d: DynamicImageModel) -> Option<CodecError> {
    if d.image_data_rival.len() != RIVAL_IMAGE_LEN {
        Some(CodecError::ImageLength(WireKey::ImageData128x36))
    } else if d.image_data_apex.len() != APEX_IMAGE_LEN {
        Some(CodecError::ImageLength(WireKey::ImageData128x40))
    } else if d.image_data_arctis_pro.len() != ARCTIS_PRO_IMAGE_LEN {
        Some(CodecError::ImageLength(WireKey::ImageData128x48))
    } else if d.image_data_gamedac.len() != GAMEDAC_IMAGE_LEN {
        Some(CodecError::ImageLength(WireKey::ImageData128x52))
    } else {
        None
    }
}

// ---- frames ----

/// The frame shapes, which the wire tells apart by their fields alone.
#[derive(Clone, Copy, Debug, PartialEq, Eq, Structural)]
pub enum FrameShape {
    PerDeviceImage,
    StaticImage,
    MultiLine,
    SingleLine,
}

/// The shape of a frame object, by fixed precedence: the first that matches wins.
pub open spec fn frame_shape(fs: Fields) -> Option<FrameShape> {
    if lookup(fs, key(WireKey::ImageData128x36)) is Some && lookup(fs, key(WireKey::ImageData128x40)) is Some
        && lookup(fs, key(WireKey::ImageData128x48)) is Some && lookup(fs, key(WireKey::ImageData128x52)) is Some {
        Some(FrameShape::PerDeviceImage)
    } else if lookup(fs, key(WireKey::ImageData)) is Some {
        Some(FrameShape::StaticImage)
    } else if lookup(fs, key(WireKey::Lines)) is Some {
        Some(FrameShape::MultiLine)
    } else if lookup(fs, key(WireKey::HasText)) is Some || lookup(fs, key(WireKey::HasProgressBar)) is Some {
        Some(FrameShape::SingleLine)
    } else {
        None
    }
}

/// Finds the shape of a frame object.
pub fn shape_of(fs: &Vec<(String, WireValue)>) -> (r: Option<FrameShape>)
    ensures
        r == frame_shape(fields_view(*fs)),
{
    if find_field(fs, WireKey::ImageData128x36.name()).is_some() && find_field(fs, WireKey::ImageData128x40.name()).is_some()
        && find_field(fs, WireKey::ImageData128x48.name()).is_some() && find_field(fs, WireKey::ImageData128x52.name()).is_some() {
        Some(FrameShape::PerDeviceImage)
    } else if find_field(fs, WireKey::ImageData.name()).is_some() {
        Some(FrameShape::StaticImage)
    } else if find_field(fs, WireKey::Lines.name()).is_some() {
        Some(FrameShape::MultiLine)
    } else if find_field(fs, WireKey::HasText.name()).is_some() || find_field(fs, WireKey::HasProgressBar.name()).is_some() {
        Some(FrameShape::SingleLine)
    } else {
        None
    }
}

pub open spec fn enc_lines(ls: Seq<LineModel>) -> WireView {
    WireView::Array(ls.map_values(|l: LineModel| enc_line(l)))
}

/// The first `n` items read as lines; the first failure wins.
pub open spec fn dec_lines_upto(items: Seq<WireView>, n: int) -> Result<Seq<LineModel>, CodecError>
    decreases n,
{
    if n <= 0 {
        Ok(Seq::empty())
    } else {
        match dec_lines_upto(items, n - 1) {
            Err(e) => Err(e),
            Ok(ls) => match dec_line(items[n - 1]) {
                Err(e) => Err(CodecError::Item(WireKey::Lines, (n - 1) as usize, Box::new(e))),
                Ok(l) => Ok(ls.push(l)),
            },
        }
    }
}

pub open spec fn dec_lines(w: WireView) -> Result<Seq<LineModel>, CodecError> {
    match w {
        WireView::Array(items) => dec_lines_upto(items, items.len() as int),
        _ => Err(CodecError::Invalid(WireKey::Lines)),
    }
}

pub open spec fn enc_frame_fields(f: FrameModel) -> Fields {
    match f {
        FrameModel::SingleLine(s) => enc_content(s.content) + enc_opt_mods(s.frame_modifiers_data)
            + enc_opt_accessor(s.data_accessor_data),
        FrameModel::MultiLine(m) => enc_opt_mods(m.frame_modifiers_data).push(
            (key(WireKey::Lines), enc_lines(m.lines)),
        ),
        FrameModel::Image(i) => enc_opt_mods(i.frame_modifiers_data).push(
            (key(WireKey::ImageData), enc_bytes(i.image_data)),
        ),
        FrameModel::DynamicImage(d) => Seq::empty()
            .push((key(WireKey::ImageData128x36), enc_bytes(d.image_data_rival)))
            .push((key(WireKey::ImageData128x40), enc_bytes(d.image_data_apex)))
            .push((key(WireKey::ImageData128x48), enc_bytes(d.image_data_arctis_pro)))
            .push((key(WireKey::ImageData128x52), enc_bytes(d.image_data_gamedac))),
    }
}

pub open spec fn enc_frame(f: FrameModel) -> WireView {
    WireView::Object(enc_frame_fields(f))
}

/// Why a frame cannot be encoded: a per-device image buffer of the wrong size.
pub open spec fn frame_error(f: FrameModel) -> Option<CodecError> {
    match f {
        FrameModel::SingleLine(s) => if opt_accessor_wf(s.data_accessor_data) {
            None
        } else {
            Some(CodecError::Invalid(WireKey::Arg))
        },
        FrameModel::MultiLine(m) => if lines_wf(m.lines) {
            None
        } else {
            Some(CodecError::Invalid(WireKey::Arg))
        },
        FrameModel::Image(i) => if static_image_len(i.image_data.len()) {
            None
        } else {
            Some(CodecError::ImageLength(WireKey::ImageData))
        },
        FrameModel::DynamicImage(d) => dyn_image_error(d),
    }
}

/// Every line's accessor, where there is one, says something.
pub open spec fn lines_wf(ls: Seq<LineModel>) -> bool {
    forall|i: int| 0 <= i < ls.len() ==> opt_accessor_wf(#[trigger] ls[i].data_accessor_data)
}

fn accessor_ok(a: &Option<DataAccessorData>) -> (r: bool)
    ensures
        r == opt_accessor_wf(opt_accessor_view(*a)),
{
    match a {
        Some(a) => a.arg.is_some() || a.context_frame_key.is_some(),
        None => true,
    }
}

fn lines_ok(lines: &Vec<LineData>) -> (r: bool)
    ensures
        r == lines_wf(lines_view(*lines)),
{
    let mut i: usize = 0;
    while i < lines.len()
        invariant
            0 <= i <= lines.len(),
            forall|j: int| 0 <= j < i ==> opt_accessor_wf(opt_accessor_view(#[trigger] lines[j].data_accessor_data)),
        decreases lines.len() - i,
    {
        if !accessor_ok(&lines[i].data_accessor_data) {
            assert(lines_view(*lines)[i as int].data_accessor_data == opt_accessor_view(lines[i as int].data_accessor_data));
            return false;
        }
        i = i + 1;
    }
    assert forall|j: int| 0 <= j < lines_view(*lines).len() implies opt_accessor_wf(
        #[trigger] lines_view(*lines)[j].data_accessor_data,
    ) by {
        assert(lines_view(*lines)[j].data_accessor_data == opt_accessor_view(lines[j].data_accessor_data));
    }
    true
}

fn static_image_ok(n: usize) -> (r: bool)
    ensures
        r == static_image_len(n as nat),
{
    n == RIVAL_IMAGE_LEN || n == APEX_IMAGE_LEN || n == ARCTIS_PRO_IMAGE_LEN || n == GAMEDAC_IMAGE_LEN
}

pub open spec fn dec_frame_fields(fs: Fields) -> Result<FrameModel, CodecError> {
    match frame_shape(fs) {
        Some(FrameShape::PerDeviceImage) => match field_image(fs, WireKey::ImageData128x36, RIVAL_IMAGE_LEN as nat) {
            Err(e) => Err(e),
            Ok(image_data_rival) => match field_image(fs, WireKey::ImageData128x40, APEX_IMAGE_LEN as nat) {
                Err(e) => Err(e),
                Ok(image_data_apex) => match field_image(fs, WireKey::ImageData128x48, ARCTIS_PRO_IMAGE_LEN as nat) {
                    Err(e) => Err(e),
                    Ok(image_data_arctis_pro) => match field_image(fs, WireKey::ImageData128x52, GAMEDAC_IMAGE_LEN as nat) {
                        Err(e) => Err(e),
                        Ok(image_data_gamedac) => Ok(FrameModel::DynamicImage(DynamicImageModel {
                            image_data_rival, image_data_apex, image_data_arctis_pro, image_data_gamedac,
                        })),
                    },
                },
            },
        },
        Some(FrameShape::StaticImage) => match dec_mods(fs) {
            Err(e) => Err(e),
            Ok(frame_modifiers_data) => match dec_bytes(lookup(fs, key(WireKey::ImageData))->Some_0, WireKey::ImageData) {
                Err(e) => Err(e),
                Ok(image_data) => if static_image_len(image_data.len()) {
                    Ok(FrameModel::Image(ImageModel { frame_modifiers_data, image_data }))
                } else {
                    Err(CodecError::ImageLength(WireKey::ImageData))
                },
            },
        },
        Some(FrameShape::MultiLine) => match dec_mods(fs) {
            Err(e) => Err(e),
            Ok(frame_modifiers_data) => match dec_lines(lookup(fs, key(WireKey::Lines))->Some_0) {
                Err(e) => Err(e),
                Ok(lines) => Ok(FrameModel::MultiLine(MultiLineModel { frame_modifiers_data, lines })),
            },
        },
        Some(FrameShape::SingleLine) => match dec_content(fs) {
            Err(e) => Err(e),
            Ok(content) => match dec_mods(fs) {
                Err(e) => Err(e),
                Ok(frame_modifiers_data) => match dec_accessor(fs) {
                    Err(e) => Err(e),
                    Ok(data_accessor_data) => Ok(FrameModel::SingleLine(SingleLineModel {
                        content, frame_modifiers_data, data_accessor_data,
                    })),
                },
            },
        },
        None => Err(CodecError::NoShape),
    }
}

pub open spec fn dec_frame(w: WireView) -> Result<FrameModel, CodecError> {
    match w {
        WireView::Object(fs) => dec_frame_fields(fs),
        _ => Err(CodecError::NotAnObject),
    }
}

pub open spec fn lines_view(v: Vec<LineData>) -> Seq<LineModel> {
    v@.map_values(|l: LineData| l@)
}

fn encode_lines(lines: &Vec<LineData>) -> (w: WireValue)
    ensures
        w@ == enc_lines(lines_view(*lines)),
{
    let mut items: Vec<WireValue> = Vec::new();
    let mut i: usize = 0;
    while i < lines.len()
        invariant
            0 <= i <= lines.len(),
            items.len() == i,
            forall|j: int| 0 <= j < i ==> (#[trigger] items[j])@ == enc_line(lines[j]@),
        decreases lines.len() - i,
    {
        items.push(encode_line(&lines[i]));
        i = i + 1;
    }
    proof { lemma_array_view(items); }
    assert(items_view(items) =~= lines_view(*lines).map_values(|l: LineModel| enc_line(l)));
    WireValue::Array(items)
}

pub fn decode_lines(w: &WireValue) -> (r: Result<Vec<LineData>, CodecError>)
    ensures
        match r {
            Ok(v) => dec_lines(w@) == Ok::<Seq<LineModel>, CodecError>(lines_view(v)),
            Err(e) => dec_lines(w@) == Err::<Seq<LineModel>, CodecError>(e),
        },
{
    match w {
        WireValue::Array(items) => {
            proof { lemma_array_view(*items); }
            let ghost iv = items_view(*items);
            let mut out: Vec<LineData> = Vec::new();
            let mut i: usize = 0;
            assert(lines_view(out) =~= Seq::<LineModel>::empty());
            while i < items.len()
                invariant
                    0 <= i <= items.len(),
                    iv == items_view(*items),
                    w@ == WireView::Array(iv),
                    dec_lines_upto(iv, i as int) == Ok::<Seq<LineModel>, CodecError>(lines_view(out)),
                decreases items.len() - i,
            {
                match decode_line(&items[i]) {
                    Ok(l) => {
                        let ghost before = lines_view(out);
                        out.push(l);
                        assert(lines_view(out) =~= before.push(l@));
                    },
                    Err(e) => {
                        let err = CodecError::Item(WireKey::Lines, i, Box::new(e));
                        proof { lemma_lines_err_stays(iv, i as int + 1, err); }
                        return Err(err);
                    },
                }
                i = i + 1;
            }
            Ok(out)
        },
        _ => Err(CodecError::Invalid(WireKey::Lines)),
    }
}

/// Once reading the lines has failed, reading more of them fails the same way.
pub proof fn lemma_lines_err_stays(items: Seq<WireView>, n: int, e: CodecError)
    requires
        1 <= n <= items.len(),
        dec_lines_upto(items, n) == Err::<Seq<LineModel>, CodecError>(e),
    ensures
        dec_lines_upto(items, items.len() as int) == Err::<Seq<LineModel>, CodecError>(e),
    decreases items.len() - n,
{
    if n < items.len() {
        lemma_lines_err_stays(items, n + 1, e);
    }
}

pub fn encode_frame(f: &ScreenFrameData) -> (r: Result<WireValue, CodecError>)
    ensures
        match r {
            Ok(w) => frame_error(f@) is None && w@ == enc_frame(f@),
            Err(e) => frame_error(f@) == Some(e),
        },
{
    let mut fs: Vec<(String, WireValue)> = Vec::new();
    match f {
        ScreenFrameData::SingleLine(s) => {
            if !accessor_ok(&s.data_accessor_data) {
                return Err(CodecError::Invalid(WireKey::Arg));
            }
            push_content(&s.content, &mut fs);
            push_mods(&s.frame_modifiers_data, &mut fs);
            push_accessor(&s.data_accessor_data, &mut fs);
        },
        ScreenFrameData::MultiLine(m) => {
            if !lines_ok(&m.lines) {
                return Err(CodecError::Invalid(WireKey::Arg));
            }
            push_mods(&m.frame_modifiers_data, &mut fs);
            push_field(&mut fs, WireKey::Lines.name(), encode_lines(&m.lines));
        },
        ScreenFrameData::Image(i) => {
            if !static_image_ok(i.image_data.len()) {
                return Err(CodecError::ImageLength(WireKey::ImageData));
            }
            push_mods(&i.frame_modifiers_data, &mut fs);
            push_field(&mut fs, WireKey::ImageData.name(), encode_bytes(&i.image_data));
        },
        ScreenFrameData::DynamicImage(d) => {
            if d.image_data_rival.len() != RIVAL_IMAGE_LEN {
                return Err(CodecError::ImageLength(WireKey::ImageData128x36));
            }
            if d.image_data_apex.len() != APEX_IMAGE_LEN {
                return Err(CodecError::ImageLength(WireKey::ImageData128x40));
            }
            if d.image_data_arctis_pro.len() != ARCTIS_PRO_IMAGE_LEN {
                return Err(CodecError::ImageLength(WireKey::ImageData128x48));
            }
            if d.image_data_gamedac.len() != GAMEDAC_IMAGE_LEN {
                return Err(CodecError::ImageLength(WireKey::ImageData128x52));
            }
            push_field(&mut fs, WireKey::ImageData128x36.name(), encode_bytes(&d.image_data_rival));
            push_field(&mut fs, WireKey::ImageData128x40.name(), encode_bytes(&d.image_data_apex));
            push_field(&mut fs, WireKey::ImageData128x48.name(), encode_bytes(&d.image_data_arctis_pro));
            push_field(&mut fs, WireKey::ImageData128x52.name(), encode_bytes(&d.image_data_gamedac));
        },
    }
    assert(fields_view(fs) =~= enc_frame_fields(f@));
    proof { lemma_object_view(fs); }
    Ok(WireValue::Object(fs))
}

pub fn decode_frame_fields(fs: &Vec<(String, WireValue)>) -> (r: Result<ScreenFrameData, CodecError>)
    ensures
        match r {
            Ok(f) => dec_frame_fields(fields_view(*fs)) == Ok::<FrameModel, CodecError>(f@),
            Err(e) => dec_frame_fields(fields_view(*fs)) == Err::<FrameModel, CodecError>(e),
        },
{
    match shape_of(fs) {
        Some(FrameShape::PerDeviceImage) => {
            let image_data_rival = match get_image(fs, WireKey::ImageData128x36, RIVAL_IMAGE_LEN) {
                Ok(b) => b,
                Err(e) => return Err(e),
            };
            let image_data_apex = match get_image(fs, WireKey::ImageData128x40, APEX_IMAGE_LEN) {
                Ok(b) => b,
                Err(e) => return Err(e),
            };
            let image_data_arctis_pro = match get_image(fs, WireKey::ImageData128x48, ARCTIS_PRO_IMAGE_LEN) {
                Ok(b) => b,
                Err(e) => return Err(e),
            };
            let image_data_gamedac = match get_image(fs, WireKey::ImageData128x52, GAMEDAC_IMAGE_LEN) {
                Ok(b) => b,
                Err(e) => return Err(e),
            };
            Ok(ScreenFrameData::DynamicImage(DynamicImageFrameData {
                image_data_rival, image_data_apex, image_data_arctis_pro, image_data_gamedac,
            }))
        },
        Some(FrameShape::StaticImage) => {
            let frame_modifiers_data = match decode_mods(fs) {
                Ok(m) => m,
                Err(e) => return Err(e),
            };
            let w = find_field(fs, WireKey::ImageData.name()).unwrap();
            let image_data = match decode_bytes(w, WireKey::ImageData) {
                Ok(b) => b,
                Err(e) => return Err(e),
            };
            if !static_image_ok(image_data.len()) {
                return Err(CodecError::ImageLength(WireKey::ImageData));
            }
            Ok(ScreenFrameData::Image(ImageFrameData { frame_modifiers_data, image_data }))
        },
        Some(FrameShape::MultiLine) => {
            let frame_modifiers_data = match decode_mods(fs) {
                Ok(m) => m,
                Err(e) => return Err(e),
            };
            let w = find_field(fs, WireKey::Lines.name()).unwrap();
            let lines = match decode_lines(w) {
                Ok(v) => v,
                Err(e) => return Err(e),
            };
            Ok(ScreenFrameData::MultiLine(MultiLineFrameData { frame_modifiers_data, lines }))
        },
        Some(FrameShape::SingleLine) => {
            let content = match decode_content(fs) {
                Ok(c) => c,
                Err(e) => return Err(e),
            };
            let frame_modifiers_data = match decode_mods(fs) {
                Ok(m) => m,
                Err(e) => return Err(e),
            };
            let data_accessor_data = match decode_accessor(fs) {
                Ok(a) => a,
                Err(e) => return Err(e),
            };
            Ok(ScreenFrameData::SingleLine(SingleLineFrameData { content, frame_modifiers_data, data_accessor_data }))
        },
        None => Err(CodecError::NoShape),
    }
}

pub fn decode_frame(w: &WireValue) -> (r: Result<ScreenFrameData, CodecError>)
    ensures
        match r {
            Ok(f) => dec_frame(w@) == Ok::<FrameModel, CodecError>(f@),
            Err(e) => dec_frame(w@) == Err::<FrameModel, CodecError>(e),
        },
{
    match w {
        WireValue::Object(fs) => {
            proof { lemma_object_view(*fs); }
            decode_frame_fields(fs)
        },
        _ => Err(CodecError::NotAnObject),
    }
}

/// A byte buffer read back from its encoding is the buffer itself.
pub proof fn lemma_bytes_round_trip(b: Seq<u8>, k: WireKey)
    ensures
        dec_bytes(enc_bytes(b), k) == Ok::<Seq<u8>, CodecError>(b),
{
    let items = enc_bytes(b)->Array_0;
    assert(forall|i: int| 0 <= i < items.len() ==> is_byte(#[trigger] items[i]));
    assert(Seq::new(items.len(), |i: int| items[i]->Int_0 as u8) =~= b);
}

proof fn lemma_lines_upto_round_trip(ls: Seq<LineModel>, n: int)
    requires
        0 <= n <= ls.len(),
        forall|i: int| 0 <= i < ls.len() ==> opt_accessor_wf(#[trigger] ls[i].data_accessor_data),
    ensures
        dec_lines_upto(ls.map_values(|l: LineModel| enc_line(l)), n) == Ok::<Seq<LineModel>, CodecError>(ls.take(n)),
    decreases n,
{
    if n > 0 {
        lemma_lines_upto_round_trip(ls, n - 1);
        lemma_line_round_trip(ls[n - 1]);
        assert(ls.take(n - 1).push(ls[n - 1]) =~= ls.take(n));
    } else {
        assert(ls.take(0) =~= Seq::<LineModel>::empty());
    }
}

/// Lines read back from their encoding are the lines themselves.
pub proof fn lemma_lines_round_trip(ls: Seq<LineModel>)
    requires
        forall|i: int| 0 <= i < ls.len() ==> opt_accessor_wf(#[trigger] ls[i].data_accessor_data),
    ensures
        dec_lines(enc_lines(ls)) == Ok::<Seq<LineModel>, CodecError>(ls),
{
    lemma_lines_upto_round_trip(ls, ls.len() as int);
    assert(ls.take(ls.len() as int) =~= ls);
}

proof fn lemma_single_line_round_trip(s: SingleLineModel)
    requires
        opt_accessor_wf(s.data_accessor_data),
    ensures
        dec_frame(enc_frame(FrameModel::SingleLine(s))) == Ok::<FrameModel, CodecError>(FrameModel::SingleLine(s)),
{
    let fs = enc_frame_fields(FrameModel::SingleLine(s));
    assert(frame_shape(fs) == Some(FrameShape::SingleLine));
    assert(dec_content(fs) == Ok::<LineContentModel, CodecError>(s.content));
    assert(dec_mods(fs) == Ok::<Option<FrameModifiersData>, CodecError>(s.frame_modifiers_data));
    assert(dec_accessor(fs) == Ok::<Option<AccessorModel>, CodecError>(s.data_accessor_data));
}

proof fn lemma_multi_line_round_trip(m: MultiLineModel)
    requires
        FrameModel::MultiLine(m).wf(),
    ensures
        dec_frame(enc_frame(FrameModel::MultiLine(m))) == Ok::<FrameModel, CodecError>(FrameModel::MultiLine(m)),
{
    let fs = enc_frame_fields(FrameModel::MultiLine(m));
    lemma_lines_round_trip(m.lines);
    assert(frame_shape(fs) == Some(FrameShape::MultiLine));
    assert(dec_mods(fs) == Ok::<Option<FrameModifiersData>, CodecError>(m.frame_modifiers_data));
}

proof fn lemma_image_round_trip(i: ImageModel)
    requires
        static_image_len(i.image_data.len()),
    ensures
        dec_frame(enc_frame(FrameModel::Image(i))) == Ok::<FrameModel, CodecError>(FrameModel::Image(i)),
{
    let fs = enc_frame_fields(FrameModel::Image(i));
    lemma_bytes_round_trip(i.image_data, WireKey::ImageData);
    assert(frame_shape(fs) == Some(FrameShape::StaticImage));
    assert(dec_mods(fs) == Ok::<Option<FrameModifiersData>, CodecError>(i.frame_modifiers_data));
}

proof fn lemma_dynamic_image_round_trip(d: DynamicImageModel)
    requires
        d.wf(),
    ensures
        dec_frame(enc_frame(FrameModel::DynamicImage(d))) == Ok::<FrameModel, CodecError>(FrameModel::DynamicImage(d)),
{
    let fs = enc_frame_fields(FrameModel::DynamicImage(d));
    lemma_bytes_round_trip(d.image_data_rival, WireKey::ImageData128x36);
    lemma_bytes_round_trip(d.image_data_apex, WireKey::ImageData128x40);
    lemma_bytes_round_trip(d.image_data_arctis_pro, WireKey::ImageData128x48);
    lemma_bytes_round_trip(d.image_data_gamedac, WireKey::ImageData128x52);
    assert(frame_shape(fs) == Some(FrameShape::PerDeviceImage));
}

/// A well-formed frame read back from its encoding is the frame itself.
pub proof fn lemma_frame_round_trip(f: FrameModel)
    requires
        f.wf(),
    ensures
        frame_error(f) is None,
        dec_frame(enc_frame(f)) == Ok::<FrameModel, CodecError>(f),
{
    match f {
        FrameModel::SingleLine(s) => lemma_single_line_round_trip(s),
        FrameModel::MultiLine(m) => lemma_multi_line_round_trip(m),
        FrameModel::Image(i) => lemma_image_round_trip(i),
        FrameModel::DynamicImage(d) => lemma_dynamic_image_round_trip(d),
    }
}

// ---- range-bucketed payloads ----

pub open spec fn frames_view(v: Vec<ScreenFrameData>) -> Seq<FrameModel> {
    v@.map_values(|f: ScreenFrameData| f@)
}

/// The first frame among the first `n` that cannot be encoded decides the error.
pub open spec fn frames_error_upto(fs: Seq<FrameModel>, n: int) -> Option<CodecError>
    decreases n,
{
    if n <= 0 {
        None
    } else {
        match frames_error_upto(fs, n - 1) {
            Some(e) => Some(e),
            None => frame_error(fs[n - 1]),
        }
    }
}

pub open spec fn frames_error(fs: Seq<FrameModel>) -> Option<CodecError> {
    frames_error_upto(fs, fs.len() as int)
}

pub open spec fn enc_frames(fs: Seq<FrameModel>) -> WireView {
    WireView::Array(fs.map_values(|f: FrameModel| enc_frame(f)))
}

pub open spec fn dec_frames_upto(items: Seq<WireView>, n: int) -> Result<Seq<FrameModel>, CodecError>
    decreases n,
{
    if n <= 0 {
        Ok(Seq::empty())
    } else {
        match dec_frames_upto(items, n - 1) {
            Err(e) => Err(e),
            Ok(fs) => match dec_frame(items[n - 1]) {
                Err(e) => Err(CodecError::Item(WireKey::Datas, (n - 1) as usize, Box::new(e))),
                Ok(f) => Ok(fs.push(f)),
            },
        }
    }
}

pub open spec fn dec_frames(w: WireView) -> Result<Seq<FrameModel>, CodecError> {
    match w {
        WireView::Array(items) => dec_frames_upto(items, items.len() as int),
        _ => Err(CodecError::Invalid(WireKey::Datas)),
    }
}

pub open spec fn enc_range(r: RangeModel) -> WireView {
    WireView::Object(
        Seq::empty()
            .push((key(WireKey::Low), WireView::Int(r.low as int)))
            .push((key(WireKey::High), WireView::Int(r.high as int)))
            .push((key(WireKey::Datas), enc_frames(r.datas))),
    )
}

pub open spec fn dec_range_fields(fs: Fields) -> Result<RangeModel, CodecError> {
    match field_i32(fs, WireKey::Low) {
        Err(e) => Err(e),
        Ok(low) => match field_i32(fs, WireKey::High) {
            Err(e) => Err(e),
            Ok(high) => match lookup(fs, key(WireKey::Datas)) {
                None => Err(CodecError::Missing(WireKey::Datas)),
                Some(w) => match dec_frames(w) {
                    Err(e) => Err(e),
                    Ok(datas) => Ok(RangeModel { low, high, datas }),
                },
            },
        },
    }
}

/// The wire form of a payload: a frame object, or a range object.
pub open spec fn enc_screen_data(d: ScreenDataModel) -> WireView {
    match d {
        ScreenDataModel::FrameData(f) => enc_frame(f),
        ScreenDataModel::RangeData(r) => enc_range(r),
    }
}

pub open spec fn screen_data_error(d: ScreenDataModel) -> Option<CodecError> {
    match d {
        ScreenDataModel::FrameData(f) => frame_error(f),
        ScreenDataModel::RangeData(r) => frames_error(r.datas),
    }
}

/// An object with a frame shape is a frame; one with none but a `datas` field is a range.
pub open spec fn dec_screen_data(w: WireView) -> Result<ScreenDataModel, CodecError> {
    match w {
        WireView::Object(fs) => if frame_shape(fs) is Some {
            match dec_frame_fields(fs) {
                Err(e) => Err(e),
                Ok(f) => Ok(ScreenDataModel::FrameData(f)),
            }
        } else if lookup(fs, key(WireKey::Datas)) is Some {
            match dec_range_fields(fs) {
                Err(e) => Err(e),
                Ok(r) => Ok(ScreenDataModel::RangeData(r)),
            }
        } else {
            Err(CodecError::NoShape)
        },
        _ => Err(CodecError::NotAnObject),
    }
}

pub fn encode_frames(frames: &Vec<ScreenFrameData>) -> (r: Result<WireValue, CodecError>)
    ensures
        match r {
            Ok(w) => frames_error(frames_view(*frames)) is None && w@ == enc_frames(frames_view(*frames)),
            Err(e) => frames_error(frames_view(*frames)) == Some(e),
        },
{
    let ghost fv = frames_view(*frames);
    let mut items: Vec<WireValue> = Vec::new();
    let mut i: usize = 0;
    while i < frames.len()
        invariant
            0 <= i <= frames.len(),
            fv == frames_view(*frames),
            items.len() == i,
            frames_error_upto(fv, i as int) is None,
            forall|j: int| 0 <= j < i ==> (#[trigger] items[j])@ == enc_frame(frames[j]@),
        decreases frames.len() - i,
    {
        match encode_frame(&frames[i]) {
            Ok(w) => items.push(w),
            Err(e) => {
                proof { lemma_frames_error_stays(fv, i as int + 1, e); }
                return Err(e);
            },
        }
        i = i + 1;
    }
    proof { lemma_array_view(items); }
    assert(items_view(items) =~= fv.map_values(|f: FrameModel| enc_frame(f)));
    Ok(WireValue::Array(items))
}

/// Once an encoding error has been met, it stays the first one.
pub proof fn lemma_frames_error_stays(fs: Seq<FrameModel>, n: int, e: CodecError)
    requires
        1 <= n <= fs.len(),
        frames_error_upto(fs, n) == Some(e),
    ensures
        frames_error(fs) == Some(e),
    decreases fs.len() - n,
{
    if n < fs.len() {
        lemma_frames_error_stays(fs, n + 1, e);
    }
}

/// Once reading the frames has failed, reading more of them fails the same way.
pub proof fn lemma_frames_err_stays(items: Seq<WireView>, n: int, e: CodecError)
    requires
        1 <= n <= items.len(),
        dec_frames_upto(items, n) == Err::<Seq<FrameModel>, CodecError>(e),
    ensures
        dec_frames_upto(items, items.len() as int) == Err::<Seq<FrameModel>, CodecError>(e),
    decreases items.len() - n,
{
    if n < items.len() {
        lemma_frames_err_stays(items, n + 1, e);
    }
}

pub fn decode_frames(w: &WireValue) -> (r: Result<Vec<ScreenFrameData>, CodecError>)
    ensures
        match r {
            Ok(v) => dec_frames(w@) == Ok::<Seq<FrameModel>, CodecError>(frames_view(v)),
            Err(e) => dec_frames(w@) == Err::<Seq<FrameModel>, CodecError>(e),
        },
{
    match w {
        WireValue::Array(items) => {
            proof { lemma_array_view(*items); }
            let ghost iv = items_view(*items);
            let mut out: Vec<ScreenFrameData> = Vec::new();
            let mut i: usize = 0;
            assert(frames_view(out) =~= Seq::<FrameModel>::empty());
            while i < items.len()
                invariant
                    0 <= i <= items.len(),
                    iv == items_view(*items),
                    w@ == WireView::Array(iv),
                    dec_frames_upto(iv, i as int) == Ok::<Seq<FrameModel>, CodecError>(frames_view(out)),
                decreases items.len() - i,
            {
                match decode_frame(&items[i]) {
                    Ok(f) => {
                        let ghost before = frames_view(out);
                        out.push(f);
                        assert(frames_view(out) =~= before.push(f@));
                    },
                    Err(e) => {
                        let err = CodecError::Item(WireKey::Datas, i, Box::new(e));
                        proof { lemma_frames_err_stays(iv, i as int + 1, err); }
                        return Err(err);
                    },
                }
                i = i + 1;
            }
            Ok(out)
        },
        _ => Err(CodecError::Invalid(WireKey::Datas)),
    }
}

/// Encodes a payload for the engine; fails only on a per-device image buffer of the wrong size.
pub fn encode_screen_data(d: &ScreenData) -> (r: Result<WireValue, CodecError>)
    ensures
        match r {
            Ok(w) => screen_data_error(d@) is None && w@ == enc_screen_data(d@),
            Err(e) => screen_data_error(d@) == Some(e),
        },
{
    match d {
        ScreenData::FrameData(f) => encode_frame(f),
        ScreenData::RangeData(rd) => {
            let datas = match encode_frames(&rd.datas) {
                Ok(w) => w,
                Err(e) => return Err(e),
            };
            let mut fs: Vec<(String, WireValue)> = Vec::new();
            push_field(&mut fs, WireKey::Low.name(), WireValue::Int(rd.low as i64));
            push_field(&mut fs, WireKey::High.name(), WireValue::Int(rd.high as i64));
            push_field(&mut fs, WireKey::Datas.name(), datas);
            assert(fields_view(fs) =~= enc_range(rd@)->Object_0);
            proof { lemma_object_view(fs); }
            Ok(WireValue::Object(fs))
        },
    }
}

/// Decodes a payload, choosing its shape by the fixed precedence of `frame_shape`.
pub fn decode_screen_data(w: &WireValue) -> (r: Result<ScreenData, CodecError>)
    ensures
        match r {
            Ok(d) => dec_screen_data(w@) == Ok::<ScreenDataModel, CodecError>(d@),
            Err(e) => dec_screen_data(w@) == Err::<ScreenDataModel, CodecError>(e),
        },
{
    match w {
        WireValue::Object(fs) => {
            proof { lemma_object_view(*fs); }
            if shape_of(fs).is_some() {
                match decode_frame_fields(fs) {
                    Ok(f) => Ok(ScreenData::FrameData(f)),
                    Err(e) => Err(e),
                }
            } else {
                match find_field(fs, WireKey::Datas.name()) {
                    Some(dw) => {
                        let low = match get_i32(fs, WireKey::Low) {
                            Ok(n) => n,
                            Err(e) => return Err(e),
                        };
                        let high = match get_i32(fs, WireKey::High) {
                            Ok(n) => n,
                            Err(e) => return Err(e),
                        };
                        let datas = match decode_frames(dw) {
                            Ok(v) => v,
                            Err(e) => return Err(e),
                        };
                        Ok(ScreenData::RangeData(RangeScreenData { low, high, datas }))
                    },
                    None => Err(CodecError::NoShape),
                }
            }
        },
        _ => Err(CodecError::NotAnObject),
    }
}

proof fn lemma_frames_upto_round_trip(fs: Seq<FrameModel>, n: int)
    requires
        0 <= n <= fs.len(),
        forall|i: int| 0 <= i < fs.len() ==> (#[trigger] fs[i]).wf(),
    ensures
        dec_frames_upto(fs.map_values(|f: FrameModel| enc_frame(f)), n) == Ok::<Seq<FrameModel>, CodecError>(fs.take(n)),
        frames_error_upto(fs, n) is None,
    decreases n,
{
    if n > 0 {
        lemma_frames_upto_round_trip(fs, n - 1);
        lemma_frame_round_trip(fs[n - 1]);
        assert(fs.take(n - 1).push(fs[n - 1]) =~= fs.take(n));
    } else {
        assert(fs.take(0) =~= Seq::<FrameModel>::empty());
    }
}

proof fn lemma_range_round_trip(r: RangeModel)
    requires
        ScreenDataModel::RangeData(r).wf(),
    ensures
        screen_data_error(ScreenDataModel::RangeData(r)) is None,
        dec_screen_data(enc_screen_data(ScreenDataModel::RangeData(r))) == Ok::<ScreenDataModel, CodecError>(
            ScreenDataModel::RangeData(r),
        ),
{
    lemma_frames_upto_round_trip(r.datas, r.datas.len() as int);
    assert(r.datas.take(r.datas.len() as int) =~= r.datas);
    let fs = enc_range(r)->Object_0;
    assert(frame_shape(fs) is None);
    assert(dec_range_fields(fs) == Ok::<RangeModel, CodecError>(r));
}

/// Round trip: every well-formed payload encodes without error, and decoding its
/// encoding gives back the same payload, field for field.
pub proof fn lemma_payload_round_trip(d: ScreenDataModel)
    requires
        d.wf(),
    ensures
        screen_data_error(d) is None,
        dec_screen_data(enc_screen_data(d)) == Ok::<ScreenDataModel, CodecError>(d),
{
    match d {
        ScreenDataModel::FrameData(f) => {
            lemma_frame_round_trip(f);
            let fs = enc_frame_fields(f);
            assert(frame_shape(fs) is Some);
        },
        ScreenDataModel::RangeData(r) => lemma_range_round_trip(r),
    }
}

/// Shape precedence: an object with all four per-device image fields is read as a
/// per-device image, whatever else it holds (a single `image-data` field included).
pub proof fn lemma_per_device_image_wins(fs: Fields)
    requires
        lookup(fs, key(WireKey::ImageData128x36)) is Some,
        lookup(fs, key(WireKey::ImageData128x40)) is Some,
        lookup(fs, key(WireKey::ImageData128x48)) is Some,
        lookup(fs, key(WireKey::ImageData128x52)) is Some,
    ensures
        frame_shape(fs) == Some(FrameShape::PerDeviceImage),
        dec_frame_fields(fs) matches Ok(f) ==> f is DynamicImage,
{
}

/// Shape precedence: an object with a `lines` field and no image field is read as a
/// multi-line frame, even where it also holds the fields of a single line.
pub proof fn lemma_lines_win_over_single_line(fs: Fields)
    requires
        lookup(fs, key(WireKey::Lines)) is Some,
        lookup(fs, key(WireKey::ImageData)) is None,
        lookup(fs, key(WireKey::ImageData128x36)) is None,
    ensures
        frame_shape(fs) == Some(FrameShape::MultiLine),
        dec_frame_fields(fs) matches Ok(f) ==> f is MultiLine,
{
}

/// A boolean repetition is read as `Infinite`, an integer one as `Counts`.
pub proof fn lemma_repeat_shape(w: WireView)
    ensures
        w matches WireView::Bool(b) ==> dec_repeat(w) == Ok::<Repeat, CodecError>(Repeat::Infinite(b)),
        w matches WireView::Int(n) ==> (in_i32(n) ==> dec_repeat(w) == Ok::<Repeat, CodecError>(
            Repeat::Counts(n as i32),
        )),
        dec_repeat(w) matches Ok(Repeat::Infinite(_)) ==> w is Bool,
        dec_repeat(w) matches Ok(Repeat::Counts(_)) ==> w is Int,
{
}

/// Byte lengths are enforced both ways: an image buffer whose size is not that of its
/// screen (for a single image, of one of the four screens) can be neither encoded nor
/// decoded.
pub proof fn lemma_image_length_enforced(d: DynamicImageModel, i: ImageModel, fs: Fields, k: WireKey, len: nat)
    ensures
        !d.wf() ==> frame_error(FrameModel::DynamicImage(d)) matches Some(CodecError::ImageLength(_)),
        !static_image_len(i.image_data.len()) ==> frame_error(FrameModel::Image(i)) == Some(
            CodecError::ImageLength(WireKey::ImageData),
        ),
        frame_shape(fs) == Some(FrameShape::StaticImage) && dec_mods(fs) is Ok ==> (dec_bytes(
            lookup(fs, key(WireKey::ImageData))->Some_0,
            WireKey::ImageData,
        ) matches Ok(b) ==> (!static_image_len(b.len()) ==> dec_frame_fields(fs) == Err::<FrameModel, CodecError>(
            CodecError::ImageLength(WireKey::ImageData),
        ))),
        (lookup(fs, key(k)) matches Some(w) && dec_bytes(w, k) matches Ok(b) && b.len() != len)
            ==> field_image(fs, k, len) == Err::<Seq<u8>, CodecError>(CodecError::ImageLength(k)),
{
}

/// A frame can be encoded exactly when it is well-formed.
pub proof fn lemma_frame_error_iff_not_wf(f: FrameModel)
    ensures
        frame_error(f) is None <==> f.wf(),
{
}

} // verus!
