use vstd::prelude::*;

use crate::codec::{encode_screen_data, enc_screen_data, screen_data_error, CodecError};
use crate::types::{FrameModel, ScreenDataModel, ScreenFrameData, APEX_IMAGE_LEN, ARCTIS_PRO_IMAGE_LEN, GAMEDAC_IMAGE_LEN, RIVAL_IMAGE_LEN};
use crate::icon::Icon;
use crate::keys::WireKey;
use crate::types::{ScreenData, ScreenHandler};
use crate::wire::{fields_view, find_field, items_view, lookup, lemma_array_view, lemma_object_view, push_field, Fields, WireValue, WireView};

verus! {

/// Registers a game with the engine.
#[derive(Debug, PartialEq)]
pub struct C2SGameCreate {
    pub game: String,
    pub game_display_name: Option<String>,
    pub developer: Option<String>,
    pub deinitialize_timer_length_ms: Option<u16>,
}

/// Keeps a game's session alive.
#[derive(Debug, PartialEq)]
pub struct C2SHeartBeat {
    pub game: String,
}

/// Sends a value for an event.
#[derive(Debug, PartialEq)]
pub struct C2STriggerEvent {
    pub game: String,
    pub event: String,
    pub data: Option<EventData>,
}

/// The value of one event firing, with the frame substitutions that bound
/// payloads may refer to by key.
#[derive(Debug, PartialEq)]
pub struct EventData {
    pub value: EventValue,
    pub frame: Option<Vec<(String, EventValue)>>,
}

/// A scalar sent with an event.
#[derive(Debug, PartialEq)]
pub enum EventValue {
    String(String),
    Number(i32),
}

/// Deregisters a game.
#[derive(Debug, PartialEq)]
pub struct C2SGameRemove {
    pub game: String,
}

/// Declares an event and its range.
#[derive(Debug, PartialEq)]
pub struct C2SGameEventCreate {
    pub game: String,
    pub event: String,
    pub min_value: i32,
    pub max_value: i32,
    pub icon_id: Icon,
    pub value_optional: bool,
}

/// Binds rendering handlers to an event.
#[derive(Debug, PartialEq)]
pub struct C2SGameEventBind {
    pub game: String,
    pub event: String,
    pub min_value: i32,
    pub max_value: i32,
    pub icon_id: Icon,
    pub handlers: Vec<ScreenHandler>,
}

/// Deregisters one event of a game.
#[derive(Debug, PartialEq)]
pub struct C2SGameEventRemove {
    pub game: String,
    pub event: String,
}

/// The engine's configuration, which names the address it listens on.
#[derive(Debug, PartialEq)]
pub struct CoreProperties {
    pub address: String,
}

pub open spec fn opt_str_field(k: Seq<char>, s: Option<String>) -> Fields {
    match s {
        Some(s) => seq![(k, WireView::Str(s@))],
        None => Seq::empty(),
    }
}

fn push_opt_str(out: &mut Vec<(String, WireValue)>, k: &str, s: &Option<String>)
    ensures
        fields_view(*final(out)) == fields_view(*old(out)) + opt_str_field(k@, *s),
{
    match s {
        Some(s) => push_field(out, k, WireValue::Str(s.clone())),
        None => {},
    }
    assert(fields_view(*final(out)) =~= fields_view(*old(out)) + opt_str_field(k@, *s));
}

impl C2SGameCreate {
    /// Absent optional fields are left out.
    pub open spec fn spec_wire(&self) -> WireView {
        WireView::Object(
            seq![("game"@, WireView::Str(self.game@))] + opt_str_field("game_display_name"@, self.game_display_name)
                + opt_str_field("developer"@, self.developer) + match self.deinitialize_timer_length_ms {
                Some(ms) => seq![("deinitialize_timer_length_ms"@, WireView::Int(ms as int))],
                None => Seq::empty(),
            },
        )
    }

    pub fn to_wire(&self) -> (w: WireValue)
        ensures
            w@ == self.spec_wire(),
    {
        let mut fs: Vec<(String, WireValue)> = Vec::new();
        push_field(&mut fs, "game", WireValue::Str(self.game.clone()));
        push_opt_str(&mut fs, "game_display_name", &self.game_display_name);
        push_opt_str(&mut fs, "developer", &self.developer);
        let ghost mid = fields_view(fs);
        if let Some(ms) = self.deinitialize_timer_length_ms {
            push_field(&mut fs, "deinitialize_timer_length_ms", WireValue::Int(ms as i64));
        }
        assert(fields_view(fs) =~= self.spec_wire()->Object_0);
        proof { lemma_object_view(fs); }
        WireValue::Object(fs)
    }
}

/// An object whose only field is the game.
pub open spec fn game_only_wire(game: Seq<char>) -> WireView {
    WireView::Object(seq![("game"@, WireView::Str(game))])
}

fn game_only(game: &String) -> (w: WireValue)
    ensures
        w@ == game_only_wire(game@),
{
    let mut fs: Vec<(String, WireValue)> = Vec::new();
    push_field(&mut fs, "game", WireValue::Str(game.clone()));
    assert(fields_view(fs) =~= game_only_wire(game@)->Object_0);
    proof { lemma_object_view(fs); }
    WireValue::Object(fs)
}

impl C2SHeartBeat {
    pub fn to_wire(&self) -> (w: WireValue)
        ensures
            w@ == game_only_wire(self.game@),
    {
        game_only(&self.game)
    }
}

impl C2SGameRemove {
    pub fn to_wire(&self) -> (w: WireValue)
        ensures
            w@ == game_only_wire(self.game@),
    {
        game_only(&self.game)
    }
}

impl C2SGameEventRemove {
    pub open spec fn spec_wire(&self) -> WireView {
        WireView::Object(seq![("game"@, WireView::Str(self.game@)), ("event"@, WireView::Str(self.event@))])
    }

    pub fn to_wire(&self) -> (w: WireValue)
        ensures
            w@ == self.spec_wire(),
    {
        let mut fs: Vec<(String, WireValue)> = Vec::new();
        push_field(&mut fs, "game", WireValue::Str(self.game.clone()));
        push_field(&mut fs, "event", WireValue::Str(self.event.clone()));
        assert(fields_view(fs) =~= self.spec_wire()->Object_0);
        proof { lemma_object_view(fs); }
        WireValue::Object(fs)
    }
}

/// The fields that event declaration and binding share.
pub open spec fn event_fields(game: Seq<char>, event: Seq<char>, min: i32, max: i32, icon: Icon) -> Fields {
    seq![
        ("game"@, WireView::Str(game)),
        ("event"@, WireView::Str(event)),
        ("min_value"@, WireView::Int(min as int)),
        ("max_value"@, WireView::Int(max as int)),
        ("icon_id"@, WireView::Int(icon.spec_code() as int)),
    ]
}

fn push_event_fields(out: &mut Vec<(String, WireValue)>, game: &String, event: &String, min: i32, max: i32, icon: Icon)
    ensures
        fields_view(*final(out)) == fields_view(*old(out)) + event_fields(game@, event@, min, max, icon),
{
    push_field(out, "game", WireValue::Str(game.clone()));
    push_field(out, "event", WireValue::Str(event.clone()));
    push_field(out, "min_value", WireValue::Int(min as i64));
    push_field(out, "max_value", WireValue::Int(max as i64));
    push_field(out, "icon_id", WireValue::Int(icon.code() as i64));
    assert(fields_view(*final(out)) =~= fields_view(*old(out)) + event_fields(game@, event@, min, max, icon));
}

impl C2SGameEventCreate {
    /// The icon goes on the wire as its numeric code.
    pub open spec fn spec_wire(&self) -> WireView {
        WireView::Object(
            event_fields(self.game@, self.event@, self.min_value, self.max_value, self.icon_id)
                + seq![("value_optional"@, WireView::Bool(self.value_optional))],
        )
    }

    pub fn to_wire(&self) -> (w: WireValue)
        ensures
            w@ == self.spec_wire(),
    {
        let mut fs: Vec<(String, WireValue)> = Vec::new();
        push_event_fields(&mut fs, &self.game, &self.event, self.min_value, self.max_value, self.icon_id);
        push_field(&mut fs, "value_optional", WireValue::Bool(self.value_optional));
        assert(fields_view(fs) =~= self.spec_wire()->Object_0);
        proof { lemma_object_view(fs); }
        WireValue::Object(fs)
    }
}

/// The first error among the first `n` items, if any.
pub open spec fn first_error<T>(s: Seq<T>, err: spec_fn(T) -> Option<CodecError>, n: int) -> Option<CodecError>
    decreases n,
{
    if n <= 0 {
        None
    } else {
        match first_error(s, err, n - 1) {
            Some(e) => Some(e),
            None => err(s[n - 1]),
        }
    }
}

proof fn lemma_first_error_stays<T>(s: Seq<T>, err: spec_fn(T) -> Option<CodecError>, n: int, e: CodecError)
    requires
        1 <= n <= s.len(),
        first_error(s, err, n) == Some(e),
    ensures
        first_error(s, err, s.len() as int) == Some(e),
    decreases s.len() - n,
{
    if n < s.len() {
        lemma_first_error_stays(s, err, n + 1, e);
    }
}

pub open spec fn datas_view(v: Vec<ScreenData>) -> Seq<ScreenDataModel> {
    v@.map_values(|d: ScreenData| d@)
}

pub open spec fn datas_error(v: Vec<ScreenData>) -> Option<CodecError> {
    first_error(datas_view(v), |d: ScreenDataModel| screen_data_error(d), v.len() as int)
}

pub open spec fn enc_datas(v: Vec<ScreenData>) -> WireView {
    WireView::Array(datas_view(v).map_values(|d: ScreenDataModel| enc_screen_data(d)))
}

fn encode_datas(v: &Vec<ScreenData>) -> (r: Result<WireValue, CodecError>)
    ensures
        match r {
            Ok(w) => datas_error(*v) is None && w@ == enc_datas(*v),
            Err(e) => datas_error(*v) == Some(e),
        },
{
    let ghost dv = datas_view(*v);
    let ghost f = |d: ScreenDataModel| screen_data_error(d);
    let mut items: Vec<WireValue> = Vec::new();
    let mut i: usize = 0;
    while i < v.len()
        invariant
            0 <= i <= v.len(),
            dv == datas_view(*v),
            f == (|d: ScreenDataModel| screen_data_error(d)),
            items.len() == i,
            first_error(dv, f, i as int) is None,
            forall|j: int| 0 <= j < i ==> (#[trigger] items[j])@ == enc_screen_data(v[j]@),
        decreases v.len() - i,
    {
        match encode_screen_data(&v[i]) {
            Ok(w) => items.push(w),
            Err(e) => {
                proof { lemma_first_error_stays(dv, f, i as int + 1, e); }
                return Err(e);
            },
        }
        i = i + 1;
    }
    proof { lemma_array_view(items); }
    assert(items_view(items) =~= dv.map_values(|d: ScreenDataModel| enc_screen_data(d)));
    Ok(WireValue::Array(items))
}

/// The image size of the screen that a device type names, where it names one.
pub open spec fn screen_image_len(dt: Seq<char>) -> Option<nat> {
    if dt == "screened-128x36"@ {
        Some(RIVAL_IMAGE_LEN as nat)
    } else if dt == "screened-128x40"@ {
        Some(APEX_IMAGE_LEN as nat)
    } else if dt == "screened-128x48"@ {
        Some(ARCTIS_PRO_IMAGE_LEN as nat)
    } else if dt == "screened-128x52"@ {
        Some(GAMEDAC_IMAGE_LEN as nat)
    } else {
        None
    }
}

fn screen_image_len_of(dt: &String) -> (r: Option<usize>)
    ensures
        r matches Some(n) ==> screen_image_len(dt@) == Some(n as nat),
        r is None ==> screen_image_len(dt@) is None,
{
    if *dt == String::from_str("screened-128x36") {
        Some(RIVAL_IMAGE_LEN)
    } else if *dt == String::from_str("screened-128x40") {
        Some(APEX_IMAGE_LEN)
    } else if *dt == String::from_str("screened-128x48") {
        Some(ARCTIS_PRO_IMAGE_LEN)
    } else if *dt == String::from_str("screened-128x52") {
        Some(GAMEDAC_IMAGE_LEN)
    } else {
        None
    }
}

/// A single image in the frame, if any, has `n` bytes.
pub open spec fn frame_fits(f: FrameModel, n: nat) -> bool {
    f matches FrameModel::Image(i) ==> i.image_data.len() == n
}

/// Every single image in the payload has `n` bytes.
pub open spec fn data_fits(d: ScreenDataModel, n: nat) -> bool {
    match d {
        ScreenDataModel::FrameData(f) => frame_fits(f, n),
        ScreenDataModel::RangeData(r) => forall|i: int| 0 <= i < r.datas.len() ==> frame_fits(#[trigger] r.datas[i], n),
    }
}

pub open spec fn datas_fit(v: Vec<ScreenData>, n: nat) -> bool {
    forall|i: int| 0 <= i < v.len() ==> data_fits(#[trigger] datas_view(v)[i], n)
}

fn frame_fits_exec(f: &ScreenFrameData, n: usize) -> (r: bool)
    ensures
        r == frame_fits(f@, n as nat),
{
    match f {
        ScreenFrameData::Image(i) => i.image_data.len() == n,
        _ => true,
    }
}

fn data_fits_exec(d: &ScreenData, n: usize) -> (r: bool)
    ensures
        r == data_fits(d@, n as nat),
{
    match d {
        ScreenData::FrameData(f) => frame_fits_exec(f, n),
        ScreenData::RangeData(rd) => {
            let mut i: usize = 0;
            while i < rd.datas.len()
                invariant
                    0 <= i <= rd.datas.len(),
                    d@ == ScreenDataModel::RangeData(rd@),
                    forall|j: int| 0 <= j < i ==> frame_fits(#[trigger] rd.datas[j]@, n as nat),
                decreases rd.datas.len() - i,
            {
                if !frame_fits_exec(&rd.datas[i], n) {
                    assert(rd@.datas[i as int] == rd.datas[i as int]@);
                    assert(!frame_fits(rd@.datas[i as int], n as nat));
                    assert(0 <= i < rd@.datas.len());
                    let ghost dm = d@;
                    assert(dm matches ScreenDataModel::RangeData(r) && r == rd@);
                    assert(!data_fits(d@, n as nat));
                    return false;
                }
                i = i + 1;
            }
            assert forall|j: int| 0 <= j < rd@.datas.len() implies frame_fits(#[trigger] rd@.datas[j], n as nat) by {
                assert(rd@.datas[j] == rd.datas[j]@);
            }
            true
        },
    }
}

fn datas_fit_exec(v: &Vec<ScreenData>, n: usize) -> (r: bool)
    ensures
        r == datas_fit(*v, n as nat),
{
    let mut i: usize = 0;
    while i < v.len()
        invariant
            0 <= i <= v.len(),
            forall|j: int| 0 <= j < i ==> data_fits(#[trigger] v[j]@, n as nat),
        decreases v.len() - i,
    {
        if !data_fits_exec(&v[i], n) {
            assert(datas_view(*v)[i as int] == v[i as int]@);
            return false;
        }
        i = i + 1;
    }
    assert forall|j: int| 0 <= j < v.len() implies data_fits(#[trigger] datas_view(*v)[j], n as nat) by {
        assert(datas_view(*v)[j] == v[j]@);
    }
    true
}

impl ScreenHandler {
    /// A payload that cannot be encoded, or, where the device type names a screen, a
    /// single image whose size is not that screen's.
    pub open spec fn spec_error(&self) -> Option<CodecError> {
        match datas_error(self.datas) {
            Some(e) => Some(e),
            None => match screen_image_len(self.device_type@) {
                Some(n) => if datas_fit(self.datas, n) {
                    None
                } else {
                    Some(CodecError::ImageLength(WireKey::ImageData))
                },
                None => None,
            },
        }
    }

    /// The device type, zone, mode and payloads, under the engine's field names.
    pub open spec fn spec_wire(&self) -> WireView {
        WireView::Object(
            seq![
                (WireKey::DeviceType.spec_name(), WireView::Str(self.device_type@)),
                (WireKey::Zone.spec_name(), WireView::Str(self.zone@)),
                (WireKey::Mode.spec_name(), WireView::Str(self.mode@)),
                (WireKey::Datas.spec_name(), enc_datas(self.datas)),
            ],
        )
    }

    /// Encodes the handler; fails exactly where `spec_error` says.
    pub fn to_wire(&self) -> (r: Result<WireValue, CodecError>)
        ensures
            match r {
                Ok(w) => self.spec_error() is None && w@ == self.spec_wire(),
                Err(e) => self.spec_error() == Some(e),
            },
    {
        let datas = match encode_datas(&self.datas) {
            Ok(w) => w,
            Err(e) => return Err(e),
        };
        if let Some(n) = screen_image_len_of(&self.device_type) {
            if !datas_fit_exec(&self.datas, n) {
                return Err(CodecError::ImageLength(WireKey::ImageData));
            }
        }
        let mut fs: Vec<(String, WireValue)> = Vec::new();
        push_field(&mut fs, WireKey::DeviceType.name(), WireValue::Str(self.device_type.clone()));
        push_field(&mut fs, WireKey::Zone.name(), WireValue::Str(self.zone.clone()));
        push_field(&mut fs, WireKey::Mode.name(), WireValue::Str(self.mode.clone()));
        push_field(&mut fs, WireKey::Datas.name(), datas);
        assert(fields_view(fs) =~= self.spec_wire()->Object_0);
        proof { lemma_object_view(fs); }
        Ok(WireValue::Object(fs))
    }
}

pub open spec fn handlers_error(v: Vec<ScreenHandler>) -> Option<CodecError> {
    first_error(v@, |h: ScreenHandler| h.spec_error(), v.len() as int)
}

pub open spec fn enc_handlers(v: Vec<ScreenHandler>) -> WireView {
    WireView::Array(v@.map_values(|h: ScreenHandler| h.spec_wire()))
}

fn encode_handlers(v: &Vec<ScreenHandler>) -> (r: Result<WireValue, CodecError>)
    ensures
        match r {
            Ok(w) => handlers_error(*v) is None && w@ == enc_handlers(*v),
            Err(e) => handlers_error(*v) == Some(e),
        },
{
    let ghost f = |h: ScreenHandler| h.spec_error();
    let mut items: Vec<WireValue> = Vec::new();
    let mut i: usize = 0;
    while i < v.len()
        invariant
            0 <= i <= v.len(),
            f == (|h: ScreenHandler| h.spec_error()),
            items.len() == i,
            first_error(v@, f, i as int) is None,
            forall|j: int| 0 <= j < i ==> (#[trigger] items[j])@ == v[j].spec_wire(),
        decreases v.len() - i,
    {
        match v[i].to_wire() {
            Ok(w) => items.push(w),
            Err(e) => {
                proof { lemma_first_error_stays(v@, f, i as int + 1, e); }
                return Err(e);
            },
        }
        i = i + 1;
    }
    proof { lemma_array_view(items); }
    assert(items_view(items) =~= v@.map_values(|h: ScreenHandler| h.spec_wire()));
    Ok(WireValue::Array(items))
}

impl C2SGameEventBind {
    pub open spec fn spec_error(&self) -> Option<CodecError> {
        handlers_error(self.handlers)
    }

    pub open spec fn spec_wire(&self) -> WireView {
        WireView::Object(
            event_fields(self.game@, self.event@, self.min_value, self.max_value, self.icon_id)
                + seq![("handlers"@, enc_handlers(self.handlers))],
        )
    }

    /// Encodes the binding; fails only where one of its payloads cannot be encoded.
    pub fn to_wire(&self) -> (r: Result<WireValue, CodecError>)
        ensures
            match r {
                Ok(w) => self.spec_error() is None && w@ == self.spec_wire(),
                Err(e) => self.spec_error() == Some(e),
            },
    {
        let handlers = match encode_handlers(&self.handlers) {
            Ok(w) => w,
            Err(e) => return Err(e),
        };
        let mut fs: Vec<(String, WireValue)> = Vec::new();
        push_event_fields(&mut fs, &self.game, &self.event, self.min_value, self.max_value, self.icon_id);
        push_field(&mut fs, "handlers", handlers);
        assert(fields_view(fs) =~= self.spec_wire()->Object_0);
        proof { lemma_object_view(fs); }
        Ok(WireValue::Object(fs))
    }
}

impl EventValue {
    pub open spec fn spec_wire(&self) -> WireView {
        match self {
            EventValue::String(s) => WireView::Str(s@),
            EventValue::Number(n) => WireView::Int(*n as int),
        }
    }

    pub fn to_wire(&self) -> (w: WireValue)
        ensures
            w@ == self.spec_wire(),
    {
        match self {
            EventValue::String(s) => WireValue::Str(s.clone()),
            EventValue::Number(n) => WireValue::Int(*n as i64),
        }
    }
}

/// The frame substitutions as an object, one field per key, in order.
pub open spec fn frame_fields(frame: Vec<(String, EventValue)>) -> Fields {
    frame@.map_values(|kv: (String, EventValue)| (kv.0@, kv.1.spec_wire()))
}

/// The frame substitutions name each key once.
pub open spec fn frame_keys_unique(frame: Vec<(String, EventValue)>) -> bool {
    forall|i: int, j: int| 0 <= i < j < frame.len() ==> (#[trigger] frame[i]).0@ != (#[trigger] frame[j]).0@
}

/// Trigger data is well-formed when its frame substitutions, if any, have unique keys.
pub open spec fn event_data_wf(data: Option<EventData>) -> bool {
    data matches Some(d) ==> (d.frame matches Some(f) ==> frame_keys_unique(f))
}

impl EventData {
    /// Whether the frame substitutions, if any, name each key once.
    pub fn has_unique_keys(&self) -> (r: bool)
        ensures
            r == event_data_wf(Some(*self)),
    {
        match &self.frame {
            None => true,
            Some(f) => {
                let mut j: usize = 0;
                while j < f.len()
                    invariant
                        0 <= j <= f.len(),
                        self.frame == Some(*f),
                        forall|a: int, b: int| 0 <= a < b < j ==> (#[trigger] f[a]).0@ != (#[trigger] f[b]).0@,
                    decreases f.len() - j,
                {
                    let mut i: usize = 0;
                    while i < j
                        invariant
                            0 <= i <= j < f.len(),
                            self.frame == Some(*f),
                            forall|a: int, b: int| 0 <= a < b < j ==> (#[trigger] f[a]).0@ != (#[trigger] f[b]).0@,
                            forall|a: int| 0 <= a < i ==> (#[trigger] f[a]).0@ != f[j as int].0@,
                        decreases j - i,
                    {
                        if f[i].0 == f[j].0 {
                            assert(f[i as int].0@ == f[j as int].0@);
                            assert(!frame_keys_unique(*f));
                            return false;
                        }
                        i = i + 1;
                    }
                    j = j + 1;
                }
                true
            },
        }
    }

    pub open spec fn spec_wire(&self) -> WireView {
        WireView::Object(
            seq![("value"@, self.value.spec_wire())] + match self.frame {
                Some(f) => seq![("frame"@, WireView::Object(frame_fields(f)))],
                None => Seq::empty(),
            },
        )
    }

    pub fn to_wire(&self) -> (w: WireValue)
        ensures
            w@ == self.spec_wire(),
    {
        let mut fs: Vec<(String, WireValue)> = Vec::new();
        push_field(&mut fs, "value", self.value.to_wire());
        if let Some(frame) = &self.frame {
            let mut inner: Vec<(String, WireValue)> = Vec::new();
            let mut i: usize = 0;
            while i < frame.len()
                invariant
                    0 <= i <= frame.len(),
                    fields_view(inner) =~= frame_fields(*frame).take(i as int),
                decreases frame.len() - i,
            {
                let ghost before = fields_view(inner);
                push_field(&mut inner, frame[i].0.as_str(), frame[i].1.to_wire());
                assert(frame_fields(*frame).take(i as int + 1) =~= before.push(frame_fields(*frame)[i as int]));
                i = i + 1;
            }
            assert(frame_fields(*frame).take(frame.len() as int) =~= frame_fields(*frame));
            proof { lemma_object_view(inner); }
            push_field(&mut fs, "frame", WireValue::Object(inner));
        }
        assert(fields_view(fs) =~= self.spec_wire()->Object_0);
        proof { lemma_object_view(fs); }
        WireValue::Object(fs)
    }
}

/// A trigger of `event` of `game`; absent data is left out.
pub open spec fn trigger_wire(game: Seq<char>, event: Seq<char>, data: Option<EventData>) -> WireView {
    WireView::Object(
        seq![("game"@, WireView::Str(game)), ("event"@, WireView::Str(event))] + match data {
            Some(d) => seq![("data"@, d.spec_wire())],
            None => Seq::empty(),
        },
    )
}

impl C2STriggerEvent {
    pub open spec fn spec_wire(&self) -> WireView {
        trigger_wire(self.game@, self.event@, self.data)
    }

    pub fn to_wire(&self) -> (w: WireValue)
        ensures
            w@ == self.spec_wire(),
    {
        let mut fs: Vec<(String, WireValue)> = Vec::new();
        push_field(&mut fs, "game", WireValue::Str(self.game.clone()));
        push_field(&mut fs, "event", WireValue::Str(self.event.clone()));
        if let Some(d) = &self.data {
            push_field(&mut fs, "data", d.to_wire());
        }
        assert(fields_view(fs) =~= self.spec_wire()->Object_0);
        proof { lemma_object_view(fs); }
        WireValue::Object(fs)
    }
}

impl CoreProperties {
    /// Reads the engine's configuration object: its `address` must be a string.
    pub fn from_wire(w: &WireValue) -> (r: Result<CoreProperties, CodecError>)
        ensures
            match w@ {
                WireView::Object(fs) => match lookup(fs, WireKey::Address.spec_name()) {
                    Some(WireView::Str(a)) => r matches Ok(c) && c.address@ == a,
                    Some(_) => r == Err::<CoreProperties, CodecError>(CodecError::Invalid(WireKey::Address)),
                    None => r == Err::<CoreProperties, CodecError>(CodecError::Missing(WireKey::Address)),
                },
                _ => r == Err::<CoreProperties, CodecError>(CodecError::NotAnObject),
            },
    {
        match w {
            WireValue::Object(fs) => {
                proof { lemma_object_view(*fs); }
                match find_field(fs, WireKey::Address.name()) {
                    Some(WireValue::Str(a)) => Ok(CoreProperties { address: a.clone() }),
                    Some(_) => Err(CodecError::Invalid(WireKey::Address)),
                    None => Err(CodecError::Missing(WireKey::Address)),
                }
            },
            _ => Err(CodecError::NotAnObject),
        }
    }
}

} // verus!
