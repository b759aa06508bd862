use vstd::prelude::*;

use crate::icon::Icon;

verus! {

/// How often a frame repeats: forever (or not), or a number of times.
#[derive(Clone, Copy, Debug, PartialEq, Eq, Structural)]
pub enum Repeat {
    Infinite(bool),
    Counts(i32),
}

/// Duration, icon and repetition of a frame.
#[derive(Clone, Copy, Debug, PartialEq, Eq, Structural)]
pub struct FrameModifiersData {
    pub length_millis: i32,
    pub icon_id: Icon,
    pub repeats: Repeat,
}

impl Default for FrameModifiersData {
    /// No duration, no icon, no repetition.
    fn default() -> (r: FrameModifiersData)
        ensures
            r == (FrameModifiersData { length_millis: 0, icon_id: Icon::NoIcon, repeats: Repeat::Infinite(false) }),
    {
        FrameModifiersData { length_millis: 0, icon_id: Icon::NoIcon, repeats: Repeat::Infinite(false) }
    }
}

/// A line that shows a progress bar.
#[derive(Clone, Copy, Debug, PartialEq, Eq, Structural)]
pub struct ProgressBarModifierData {
    pub has_progress_bar: bool,
}

impl Default for ProgressBarModifierData {
    fn default() -> (r: ProgressBarModifierData)
        ensures
            r.has_progress_bar,
    {
        ProgressBarModifierData { has_progress_bar: true }
    }
}

/// A line that shows text between a prefix and a suffix.
#[derive(Debug, PartialEq)]
pub struct TextModifierData {
    pub has_text: bool,
    pub prefix: String,
    pub suffix: String,
    pub bold: bool,
    pub wrap: i32,
}

impl Default for TextModifierData {
    /// Plain text, with no prefix, suffix, bold or wrapping.
    fn default() -> (r: TextModifierData)
        ensures
            r.has_text,
            r.prefix@ == Seq::<char>::empty(),
            r.suffix@ == Seq::<char>::empty(),
            !r.bold,
            r.wrap == 0,
    {
        TextModifierData { has_text: true, prefix: String::new(), suffix: String::new(), bold: false, wrap: 0 }
    }
}

pub struct TextModel {
    pub has_text: bool,
    pub prefix: Seq<char>,
    pub suffix: Seq<char>,
    pub bold: bool,
    pub wrap: i32,
}

impl View for TextModifierData {
    type V = TextModel;

    open spec fn view(&self) -> TextModel {
        TextModel {
            has_text: self.has_text,
            prefix: self.prefix@,
            suffix: self.suffix@,
            bold: self.bold,
            wrap: self.wrap,
        }
    }
}

/// What a line shows.
#[derive(Debug, PartialEq)]
pub enum LineContent {
    Text(TextModifierData),
    ProgressBar(ProgressBarModifierData),
}

pub enum LineContentModel {
    Text(TextModel),
    ProgressBar(ProgressBarModifierData),
}

impl View for LineContent {
    type V = LineContentModel;

    open spec fn view(&self) -> LineContentModel {
        match self {
            LineContent::Text(t) => LineContentModel::Text(t@),
            LineContent::ProgressBar(p) => LineContentModel::ProgressBar(*p),
        }
    }
}

/// Where a line takes its value from: a literal argument, a key of the trigger's
/// frame substitutions, or both.
#[derive(Debug, PartialEq)]
pub struct DataAccessorData {
    pub arg: Option<String>,
    pub context_frame_key: Option<String>,
}

pub struct AccessorModel {
    pub arg: Option<Seq<char>>,
    pub context_frame_key: Option<Seq<char>>,
}

pub open spec fn opt_str_view(s: Option<String>) -> Option<Seq<char>> {
    match s {
        Some(s) => Some(s@),
        None => None,
    }
}

impl View for DataAccessorData {
    type V = AccessorModel;

    open spec fn view(&self) -> AccessorModel {
        AccessorModel {
            arg: opt_str_view(self.arg),
            context_frame_key: opt_str_view(self.context_frame_key),
        }
    }
}

impl AccessorModel {
    /// An accessor says something: at least one of its two references is set.
    pub open spec fn wf(self) -> bool {
        self.arg is Some || self.context_frame_key is Some
    }
}

pub open spec fn opt_accessor_view(a: Option<DataAccessorData>) -> Option<AccessorModel> {
    match a {
        Some(a) => Some(a@),
        None => None,
    }
}

pub open spec fn opt_accessor_wf(a: Option<AccessorModel>) -> bool {
    a matches Some(m) ==> m.wf()
}

/// One line of a multi-line frame.
#[derive(Debug, PartialEq)]
pub struct LineData {
    pub content: LineContent,
    pub data_accessor_data: Option<DataAccessorData>,
}

pub struct LineModel {
    pub content: LineContentModel,
    pub data_accessor_data: Option<AccessorModel>,
}

impl View for LineData {
    type V = LineModel;

    open spec fn view(&self) -> LineModel {
        LineModel {
            content: self.content@,
            data_accessor_data: opt_accessor_view(self.data_accessor_data),
        }
    }
}

/// A frame of one line.
#[derive(Debug, PartialEq)]
pub struct SingleLineFrameData {
    pub content: LineContent,
    pub frame_modifiers_data: Option<FrameModifiersData>,
    pub data_accessor_data: Option<DataAccessorData>,
}

pub struct SingleLineModel {
    pub content: LineContentModel,
    pub frame_modifiers_data: Option<FrameModifiersData>,
    pub data_accessor_data: Option<AccessorModel>,
}

impl View for SingleLineFrameData {
    type V = SingleLineModel;

    open spec fn view(&self) -> SingleLineModel {
        SingleLineModel {
            content: self.content@,
            frame_modifiers_data: self.frame_modifiers_data,
            data_accessor_data: opt_accessor_view(self.data_accessor_data),
        }
    }
}

/// A frame of several lines, in order.
#[derive(Debug, PartialEq)]
pub struct MultiLineFrameData {
    pub frame_modifiers_data: Option<FrameModifiersData>,
    pub lines: Vec<LineData>,
}

pub struct MultiLineModel {
    pub frame_modifiers_data: Option<FrameModifiersData>,
    pub lines: Seq<LineModel>,
}

impl View for MultiLineFrameData {
    type V = MultiLineModel;

    open spec fn view(&self) -> MultiLineModel {
        MultiLineModel {
            frame_modifiers_data: self.frame_modifiers_data,
            lines: self.lines@.map_values(|l: LineData| l@),
        }
    }
}

/// A frame that shows one raw image.
#[derive(Debug, PartialEq)]
pub struct ImageFrameData {
    pub frame_modifiers_data: Option<FrameModifiersData>,
    pub image_data: Vec<u8>,
}

pub struct ImageModel {
    pub frame_modifiers_data: Option<FrameModifiersData>,
    pub image_data: Seq<u8>,
}

impl View for ImageFrameData {
    type V = ImageModel;

    open spec fn view(&self) -> ImageModel {
        ImageModel { frame_modifiers_data: self.frame_modifiers_data, image_data: self.image_data@ }
    }
}

/// Bytes of an image for a 128x36 screen.
pub const RIVAL_IMAGE_LEN: usize = 576;

/// Bytes of an image for a 128x40 screen.
pub const APEX_IMAGE_LEN: usize = 640;

/// Bytes of an image for a 128x48 screen.
pub const ARCTIS_PRO_IMAGE_LEN: usize = 768;

/// Bytes of an image for a 128x52 screen.
pub const GAMEDAC_IMAGE_LEN: usize = 832;

/// A single image must have the size of one of the four screens.
pub open spec fn static_image_len(n: nat) -> bool {
    n == RIVAL_IMAGE_LEN || n == APEX_IMAGE_LEN || n == ARCTIS_PRO_IMAGE_LEN || n == GAMEDAC_IMAGE_LEN
}

/// A frame with one image for each screen size, all four given together.
#[derive(Debug, PartialEq)]
pub struct DynamicImageFrameData {
    pub image_data_rival: Vec<u8>,
    pub image_data_apex: Vec<u8>,
    pub image_data_arctis_pro: Vec<u8>,
    pub image_data_gamedac: Vec<u8>,
}

pub struct DynamicImageModel {
    pub image_data_rival: Seq<u8>,
    pub image_data_apex: Seq<u8>,
    pub image_data_arctis_pro: Seq<u8>,
    pub image_data_gamedac: Seq<u8>,
}

impl View for DynamicImageFrameData {
    type V = DynamicImageModel;

    open spec fn view(&self) -> DynamicImageModel {
        DynamicImageModel {
            image_data_rival: self.image_data_rival@,
            image_data_apex: self.image_data_apex@,
            image_data_arctis_pro: self.image_data_arctis_pro@,
            image_data_gamedac: self.image_data_gamedac@,
        }
    }
}

impl DynamicImageModel {
    /// Each buffer has exactly the size of its screen.
    pub open spec fn wf(self) -> bool {
        &&& self.image_data_rival.len() == RIVAL_IMAGE_LEN
        &&& self.image_data_apex.len() == APEX_IMAGE_LEN
        &&& self.image_data_arctis_pro.len() == ARCTIS_PRO_IMAGE_LEN
        &&& self.image_data_gamedac.len() == GAMEDAC_IMAGE_LEN
    }
}

/// One renderable frame.
#[derive(Debug, PartialEq)]
pub enum ScreenFrameData {
    SingleLine(SingleLineFrameData),
    MultiLine(MultiLineFrameData),
    Image(ImageFrameData),
    DynamicImage(DynamicImageFrameData),
}

pub enum FrameModel {
    SingleLine(SingleLineModel),
    MultiLine(MultiLineModel),
    Image(ImageModel),
    DynamicImage(DynamicImageModel),
}

impl View for ScreenFrameData {
    type V = FrameModel;

    open spec fn view(&self) -> FrameModel {
        match self {
            ScreenFrameData::SingleLine(f) => FrameModel::SingleLine(f@),
            ScreenFrameData::MultiLine(f) => FrameModel::MultiLine(f@),
            ScreenFrameData::Image(f) => FrameModel::Image(f@),
            ScreenFrameData::DynamicImage(f) => FrameModel::DynamicImage(f@),
        }
    }
}

impl FrameModel {
    /// The frame's accessors say something and its image buffers have screen sizes.
    pub open spec fn wf(self) -> bool {
        match self {
            FrameModel::SingleLine(f) => opt_accessor_wf(f.data_accessor_data),
            FrameModel::MultiLine(f) => forall|i: int|
                0 <= i < f.lines.len() ==> opt_accessor_wf(#[trigger] f.lines[i].data_accessor_data),
            FrameModel::Image(f) => static_image_len(f.image_data.len()),
            FrameModel::DynamicImage(f) => f.wf(),
        }
    }
}

/// Frames shown while the event's value lies in `low..=high`.
#[derive(Debug, PartialEq)]
pub struct RangeScreenData {
    pub low: i32,
    pub high: i32,
    pub datas: Vec<ScreenFrameData>,
}

pub struct RangeModel {
    pub low: i32,
    pub high: i32,
    pub datas: Seq<FrameModel>,
}

impl View for RangeScreenData {
    type V = RangeModel;

    open spec fn view(&self) -> RangeModel {
        RangeModel { low: self.low, high: self.high, datas: self.datas@.map_values(|f: ScreenFrameData| f@) }
    }
}

/// A rendering instruction: a frame, or frames bucketed by value range.
#[derive(Debug, PartialEq)]
pub enum ScreenData {
    FrameData(ScreenFrameData),
    RangeData(RangeScreenData),
}

pub enum ScreenDataModel {
    FrameData(FrameModel),
    RangeData(RangeModel),
}

impl View for ScreenData {
    type V = ScreenDataModel;

    open spec fn view(&self) -> ScreenDataModel {
        match self {
            ScreenData::FrameData(f) => ScreenDataModel::FrameData(f@),
            ScreenData::RangeData(r) => ScreenDataModel::RangeData(r@),
        }
    }
}

impl ScreenDataModel {
    pub open spec fn wf(self) -> bool {
        match self {
            ScreenDataModel::FrameData(f) => f.wf(),
            ScreenDataModel::RangeData(r) => forall|i: int|
                0 <= i < r.datas.len() ==> (#[trigger] r.datas[i]).wf(),
        }
    }
}

/// The rendering instructions for one device type and zone.
#[derive(Debug, PartialEq)]
pub struct ScreenHandler {
    pub device_type: String,
    pub zone: String,
    pub mode: String,
    pub datas: Vec<ScreenData>,
}

impl Default for ScreenHandler {
    /// A handler in the fixed "screen" mode, with no payload yet.
    fn default() -> (r: ScreenHandler)
        ensures
            r.device_type@ == Seq::<char>::empty(),
            r.zone@ == Seq::<char>::empty(),
            r.mode@ == "screen"@,
            r.datas@ == Seq::<ScreenData>::empty(),
    {
        ScreenHandler { device_type: String::new(), zone: String::new(), mode: String::from_str("screen"), datas: Vec::new() }
    }
}

/// The families of devices with an auxiliary screen.
#[derive(Clone, Copy, Debug, PartialEq, Eq, Structural)]
pub enum OLEDDeviceType {
    ApexSeries,
    RivalSeries,
    ArctisProWireless,
    GameDAC,
}

impl OLEDDeviceType {
    pub open spec fn spec_device_type(self) -> Seq<char> {
        match self {
            OLEDDeviceType::ApexSeries => "screened-128x40"@,
            OLEDDeviceType::RivalSeries => "screened-128x36"@,
            OLEDDeviceType::ArctisProWireless => "screened-128x48"@,
            OLEDDeviceType::GameDAC => "screened-128x52"@,
        }
    }

    /// The device-type selector of this family's screen.
    pub fn into_device_type(self) -> (r: String)
        ensures
            r@ == self.spec_device_type(),
    {
        match self {
            OLEDDeviceType::ApexSeries => String::from_str("screened-128x40"),
            OLEDDeviceType::RivalSeries => String::from_str("screened-128x36"),
            OLEDDeviceType::ArctisProWireless => String::from_str("screened-128x48"),
            OLEDDeviceType::GameDAC => String::from_str("screened-128x52"),
        }
    }
}

} // verus!
