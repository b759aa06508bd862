use vstd::prelude::*;

verus! {

/// The field names of the payload wire format: the codec's rename table.
#[derive(Clone, Copy, Debug, PartialEq, Eq, Structural)]
pub enum WireKey {
    HasText,
    Prefix,
    Suffix,
    Bold,
    Wrap,
    HasProgressBar,
    LengthMillis,
    IconId,
    Repeats,
    Arg,
    ContextFrameKey,
    Lines,
    ImageData,
    ImageData128x36,
    ImageData128x40,
    ImageData128x48,
    ImageData128x52,
    Low,
    High,
    Datas,
    DeviceType,
    Zone,
    Mode,
    Address,
}

impl WireKey {
    /// The field's name on the wire.
    pub open spec fn spec_name(self) -> Seq<char> {
        match self {
            WireKey::HasText => "has-text"@,
            WireKey::Prefix => "prefix"@,
            WireKey::Suffix => "suffix"@,
            WireKey::Bold => "bold"@,
            WireKey::Wrap => "wrap"@,
            WireKey::HasProgressBar => "has-progress-bar"@,
            WireKey::LengthMillis => "length-millis"@,
            WireKey::IconId => "icon-id"@,
            WireKey::Repeats => "repeats"@,
            WireKey::Arg => "arg"@,
            WireKey::ContextFrameKey => "context-frame-key"@,
            WireKey::Lines => "lines"@,
            WireKey::ImageData => "image-data"@,
            WireKey::ImageData128x36 => "image-data-128x36"@,
            WireKey::ImageData128x40 => "image-data-128x40"@,
            WireKey::ImageData128x48 => "image-data-128x48"@,
            WireKey::ImageData128x52 => "image-data-128x52"@,
            WireKey::Low => "low"@,
            WireKey::High => "high"@,
            WireKey::Datas => "datas"@,
            WireKey::DeviceType => "device-type"@,
            WireKey::Zone => "zone"@,
            WireKey::Mode => "mode"@,
            WireKey::Address => "address"@,
        }
    }

    /// Length, first and last character of the name, which tell all names apart.
    pub open spec fn signature(self) -> (nat, char, char) {
        match self {
            WireKey::HasText => (8, 'h', 't'),
            WireKey::Prefix => (6, 'p', 'x'),
            WireKey::Suffix => (6, 's', 'x'),
            WireKey::Bold => (4, 'b', 'd'),
            WireKey::Wrap => (4, 'w', 'p'),
            WireKey::HasProgressBar => (16, 'h', 'r'),
            WireKey::LengthMillis => (13, 'l', 's'),
            WireKey::IconId => (7, 'i', 'd'),
            WireKey::Repeats => (7, 'r', 's'),
            WireKey::Arg => (3, 'a', 'g'),
            WireKey::ContextFrameKey => (17, 'c', 'y'),
            WireKey::Lines => (5, 'l', 's'),
            WireKey::ImageData => (10, 'i', 'a'),
            WireKey::ImageData128x36 => (17, 'i', '6'),
            WireKey::ImageData128x40 => (17, 'i', '0'),
            WireKey::ImageData128x48 => (17, 'i', '8'),
            WireKey::ImageData128x52 => (17, 'i', '2'),
            WireKey::Low => (3, 'l', 'w'),
            WireKey::High => (4, 'h', 'h'),
            WireKey::Datas => (5, 'd', 's'),
            WireKey::DeviceType => (11, 'd', 'e'),
            WireKey::Zone => (4, 'z', 'e'),
            WireKey::Mode => (4, 'm', 'e'),
            WireKey::Address => (7, 'a', 's'),
        }
    }

    pub fn name(self) -> (r: &'static str)
        ensures
            r@ == self.spec_name(),
    {
        match self {
            WireKey::HasText => "has-text",
            WireKey::Prefix => "prefix",
            WireKey::Suffix => "suffix",
            WireKey::Bold => "bold",
            WireKey::Wrap => "wrap",
            WireKey::HasProgressBar => "has-progress-bar",
            WireKey::LengthMillis => "length-millis",
            WireKey::IconId => "icon-id",
            WireKey::Repeats => "repeats",
            WireKey::Arg => "arg",
            WireKey::ContextFrameKey => "context-frame-key",
            WireKey::Lines => "lines",
            WireKey::ImageData => "image-data",
            WireKey::ImageData128x36 => "image-data-128x36",
            WireKey::ImageData128x40 => "image-data-128x40",
            WireKey::ImageData128x48 => "image-data-128x48",
            WireKey::ImageData128x52 => "image-data-128x52",
            WireKey::Low => "low",
            WireKey::High => "high",
            WireKey::Datas => "datas",
            WireKey::DeviceType => "device-type",
            WireKey::Zone => "zone",
            WireKey::Mode => "mode",
            WireKey::Address => "address",
        }
    }
}

proof fn lemma_signature(k: WireKey)
    ensures
        k.spec_name().len() == k.signature().0,
        k.spec_name()[0] == k.signature().1,
        k.spec_name()[k.spec_name().len() - 1] == k.signature().2,
{
    match k {
        WireKey::HasText => {
            reveal_strlit("has-text");
            assert("has-text"@[0] == 'h');
            assert("has-text"@[7] == 't');
        },
        WireKey::Prefix => {
            reveal_strlit("prefix");
            assert("prefix"@[0] == 'p');
            assert("prefix"@[5] == 'x');
        },
        WireKey::Suffix => {
            reveal_strlit("suffix");
            assert("suffix"@[0] == 's');
            assert("suffix"@[5] == 'x');
        },
        WireKey::Bold => {
            reveal_strlit("bold");
            assert("bold"@[0] == 'b');
            assert("bold"@[3] == 'd');
        },
        WireKey::Wrap => {
            reveal_strlit("wrap");
            assert("wrap"@[0] == 'w');
            assert("wrap"@[3] == 'p');
        },
        WireKey::HasProgressBar => {
            reveal_strlit("has-progress-bar");
            assert("has-progress-bar"@[0] == 'h');
            assert("has-progress-bar"@[15] == 'r');
        },
        WireKey::LengthMillis => {
            reveal_strlit("length-millis");
            assert("length-millis"@[0] == 'l');
            assert("length-millis"@[12] == 's');
        },
        WireKey::IconId => {
            reveal_strlit("icon-id");
            assert("icon-id"@[0] == 'i');
            assert("icon-id"@[6] == 'd');
        },
        WireKey::Repeats => {
            reveal_strlit("repeats");
            assert("repeats"@[0] == 'r');
            assert("repeats"@[6] == 's');
        },
        WireKey::Arg => {
            reveal_strlit("arg");
            assert("arg"@[0] == 'a');
            assert("arg"@[2] == 'g');
        },
        WireKey::ContextFrameKey => {
            reveal_strlit("context-frame-key");
            assert("context-frame-key"@[0] == 'c');
            assert("context-frame-key"@[16] == 'y');
        },
        WireKey::Lines => {
            reveal_strlit("lines");
            assert("lines"@[0] == 'l');
            assert("lines"@[4] == 's');
        },
        WireKey::ImageData => {
            reveal_strlit("image-data");
            assert("image-data"@[0] == 'i');
            assert("image-data"@[9] == 'a');
        },
        WireKey::ImageData128x36 => {
            reveal_strlit("image-data-128x36");
            assert("image-data-128x36"@[0] == 'i');
            assert("image-data-128x36"@[16] == '6');
        },
        WireKey::ImageData128x40 => {
            reveal_strlit("image-data-128x40");
            assert("image-data-128x40"@[0] == 'i');
            assert("image-data-128x40"@[16] == '0');
        },
        WireKey::ImageData128x48 => {
            reveal_strlit("image-data-128x48");
            assert("image-data-128x48"@[0] == 'i');
            assert("image-data-128x48"@[16] == '8');
        },
        WireKey::ImageData128x52 => {
            reveal_strlit("image-data-128x52");
            assert("image-data-128x52"@[0] == 'i');
            assert("image-data-128x52"@[16] == '2');
        },
        WireKey::Low => {
            reveal_strlit("low");
            assert("low"@[0] == 'l');
            assert("low"@[2] == 'w');
        },
        WireKey::High => {
            reveal_strlit("high");
            assert("high"@[0] == 'h');
            assert("high"@[3] == 'h');
        },
        WireKey::Datas => {
            reveal_strlit("datas");
            assert("datas"@[0] == 'd');
            assert("datas"@[4] == 's');
        },
        WireKey::DeviceType => {
            reveal_strlit("device-type");
            assert("device-type"@[0] == 'd');
            assert("device-type"@[10] == 'e');
        },
        WireKey::Zone => {
            reveal_strlit("zone");
            assert("zone"@[0] == 'z');
            assert("zone"@[3] == 'e');
        },
        WireKey::Mode => {
            reveal_strlit("mode");
            assert("mode"@[0] == 'm');
            assert("mode"@[3] == 'e');
        },
        WireKey::Address => {
            reveal_strlit("address");
            assert("address"@[0] == 'a');
            assert("address"@[6] == 's');
        },
    }
}

/// Distinct keys have distinct names.
pub broadcast proof fn lemma_names_distinct(a: WireKey, b: WireKey)
    ensures
        #[trigger] a.spec_name() == #[trigger] b.spec_name() ==> a == b,
{
    lemma_signature(a);
    lemma_signature(b);
}

} // verus!
