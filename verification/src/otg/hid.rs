//! Keyboards and pointers that the machine offers over USB.
use crate::sunshine::state::{path_below, path_join};
use crate::text::{append_decimal, decimal, owned};
use vstd::prelude::*;

verus! {

/// What a function is.
#[derive(Debug, Clone, Copy, PartialEq, Eq, Structural)]
pub enum HidFunctionType {
    Keyboard,
    /// A mouse that reports movement.
    MouseRelative,
    /// A pointer that reports places.
    MouseAbsolute,
    /// Multimedia keys.
    ConsumerControl,
    /// Keyboard, both pointers and multimedia keys over one interface.
    CompositeKeyboardPointer,
}

/// The report descriptors of the functions.
#[derive(Debug)]
pub struct ReportDescriptors {
    pub keyboard: Vec<u8>,
    pub keyboard_with_led: Vec<u8>,
    pub mouse_relative: Vec<u8>,
    pub mouse_absolute: Vec<u8>,
    pub consumer_control: Vec<u8>,
    pub composite_keyboard_pointer: Vec<u8>,
}

impl HidFunctionType {
    /// Whether a function takes reports as well as giving them: a keyboard with lights does.
    pub open spec fn has_out(self, keyboard_leds: bool) -> bool {
        self == HidFunctionType::Keyboard && keyboard_leds
    }

    /// How many endpoints the function takes.
    pub fn endpoints(&self, keyboard_leds: bool) -> (r: u8)
        ensures
            r == (if self.has_out(keyboard_leds) {
                2u8
            } else {
                1u8
            }),
    {
        if self.uses_out_endpoint(keyboard_leds) {
            2
        } else {
            1
        }
    }

    /// Whether the function needs an endpoint for reports that it takes.
    pub fn uses_out_endpoint(&self, keyboard_leds: bool) -> (r: bool)
        ensures
            r == self.has_out(keyboard_leds),
    {
        match self {
            HidFunctionType::Keyboard => keyboard_leds,
            _ => false,
        }
    }

    /// The protocol's number.
    pub open spec fn protocol_number(self) -> u8 {
        match self {
            HidFunctionType::Keyboard => 1,
            HidFunctionType::MouseRelative => 2,
            HidFunctionType::MouseAbsolute => 2,
            HidFunctionType::ConsumerControl => 0,
            HidFunctionType::CompositeKeyboardPointer => 0,
        }
    }

    /// The protocol: keyboard, mouse or none.
    pub fn protocol(&self) -> (r: u8)
        ensures
            r == self.protocol_number(),
    {
        match self {
            HidFunctionType::Keyboard => 1,
            HidFunctionType::MouseRelative => 2,
            HidFunctionType::MouseAbsolute => 2,
            HidFunctionType::ConsumerControl => 0,
            HidFunctionType::CompositeKeyboardPointer => 0,
        }
    }

    /// The subclass' number.
    pub open spec fn subclass_number(self) -> u8 {
        match self {
            HidFunctionType::Keyboard => 1,
            HidFunctionType::MouseRelative => 1,
            HidFunctionType::MouseAbsolute => 0,
            HidFunctionType::ConsumerControl => 0,
            HidFunctionType::CompositeKeyboardPointer => 0,
        }
    }

    /// The subclass: whether firmware can use the function.
    pub fn subclass(&self) -> (r: u8)
        ensures
            r == self.subclass_number(),
    {
        match self {
            HidFunctionType::Keyboard => 1,
            HidFunctionType::MouseRelative => 1,
            HidFunctionType::MouseAbsolute => 0,
            HidFunctionType::ConsumerControl => 0,
            HidFunctionType::CompositeKeyboardPointer => 0,
        }
    }

    /// The length of a report.
    pub open spec fn report_bytes(self) -> u8 {
        match self {
            HidFunctionType::Keyboard => 8,
            HidFunctionType::MouseRelative => 4,
            HidFunctionType::MouseAbsolute => 6,
            HidFunctionType::ConsumerControl => 2,
            HidFunctionType::CompositeKeyboardPointer => 9,
        }
    }

    /// The length of a report in bytes; lights do not change it.
    pub fn report_length(&self, keyboard_leds: bool) -> (r: u8)
        ensures
            r == self.report_bytes(),
    {
        let _ = keyboard_leds;
        match self {
            HidFunctionType::Keyboard => 8,
            HidFunctionType::MouseRelative => 4,
            HidFunctionType::MouseAbsolute => 6,
            HidFunctionType::ConsumerControl => 2,
            HidFunctionType::CompositeKeyboardPointer => 9,
        }
    }

    /// The report descriptor of a function.
    pub open spec fn descriptor(self, keyboard_leds: bool, all: ReportDescriptors) -> Seq<u8> {
        match self {
            HidFunctionType::Keyboard => if keyboard_leds {
                all.keyboard_with_led@
            } else {
                all.keyboard@
            },
            HidFunctionType::MouseRelative => all.mouse_relative@,
            HidFunctionType::MouseAbsolute => all.mouse_absolute@,
            HidFunctionType::ConsumerControl => all.consumer_control@,
            HidFunctionType::CompositeKeyboardPointer => all.composite_keyboard_pointer@,
        }
    }

    /// The report descriptor of the function, out of all of them.
    pub fn report_desc<'a>(&self, keyboard_leds: bool, all: &'a ReportDescriptors) -> (r: &'a [u8])
        ensures
            r@ == self.descriptor(keyboard_leds, *all),
    {
        match self {
            HidFunctionType::Keyboard => if keyboard_leds {
                all.keyboard_with_led.as_slice()
            } else {
                all.keyboard.as_slice()
            },
            HidFunctionType::MouseRelative => all.mouse_relative.as_slice(),
            HidFunctionType::MouseAbsolute => all.mouse_absolute.as_slice(),
            HidFunctionType::ConsumerControl => all.consumer_control.as_slice(),
            HidFunctionType::CompositeKeyboardPointer => all.composite_keyboard_pointer.as_slice(),
        }
    }

    /// What a function is called.
    pub open spec fn label(self) -> Seq<char> {
        match self {
            HidFunctionType::Keyboard => "Keyboard"@,
            HidFunctionType::MouseRelative => "Relative Mouse"@,
            HidFunctionType::MouseAbsolute => "Absolute Mouse"@,
            HidFunctionType::ConsumerControl => "Consumer Control"@,
            HidFunctionType::CompositeKeyboardPointer => "Composite Keyboard/Pointer"@,
        }
    }

    /// What the function is called.
    pub fn description(&self) -> (r: &'static str)
        ensures
            r@ == self.label(),
    {
        match self {
            HidFunctionType::Keyboard => "Keyboard",
            HidFunctionType::MouseRelative => "Relative Mouse",
            HidFunctionType::MouseAbsolute => "Absolute Mouse",
            HidFunctionType::ConsumerControl => "Consumer Control",
            HidFunctionType::CompositeKeyboardPointer => "Composite Keyboard/Pointer",
        }
    }
}

/// A function that the machine offers.
///
/// Some kernels want well-known names for the directories of a function, so the name and the
/// number of the device node are kept apart.
#[derive(Debug, Clone)]
pub struct HidFunction {
    pub instance: u8,
    pub func_type: HidFunctionType,
    pub name: String,
    pub keyboard_leds: bool,
}

/// What is told of a function.
#[derive(Debug, Clone)]
pub struct FunctionMeta {
    pub name: String,
    pub description: String,
    pub endpoints: u8,
    pub enabled: bool,
}

/// A file of a function's directory, with what is written into it.
#[derive(Debug)]
pub struct AttributeWrite {
    pub path: String,
    pub content: Vec<u8>,
    /// Whether the function is refused where the file cannot be written.
    pub required: bool,
}

/// The generic name of a function's directory.
pub open spec fn numbered_name(instance: u8) -> Seq<char> {
    "hid.usb"@ + decimal(instance as nat)
}

fn name_with_number(instance: u8) -> (r: String)
    ensures
        r@ == numbered_name(instance),
{
    let mut name = owned("hid.usb");
    append_decimal(&mut name, instance as u64);
    name
}

fn ascii_bytes(text: &str) -> (r: Vec<u8>)
    ensures
        r@ == vstd::utf8::encode_utf8(text@),
{
    vstd::slice::slice_to_vec(text.as_bytes())
}

fn number_text(n: u8) -> (r: Vec<u8>)
    ensures
        r@ == vstd::utf8::encode_utf8(decimal(n as nat)),
{
    let mut text = String::new();
    append_decimal(&mut text, n as u64);
    assert(text@ == decimal(n as nat));
    ascii_bytes(text.as_str())
}

/// Whether a file is written as it should be.
pub open spec fn writes(
    w: AttributeWrite,
    dir: Seq<char>,
    file: Seq<char>,
    content: Seq<u8>,
    required: bool,
) -> bool {
    &&& w.path@ == path_below(dir, file)
    &&& w.content@ == content
    &&& w.required == required
}

impl HidFunction {
    /// A keyboard.
    pub fn keyboard(instance: u8, keyboard_leds: bool) -> (r: Self)
        ensures
            r.instance == instance,
            r.func_type == HidFunctionType::Keyboard,
            r.name@ == "hid.keyboard"@,
            r.keyboard_leds == keyboard_leds,
    {
        HidFunction {
            instance,
            func_type: HidFunctionType::Keyboard,
            name: owned("hid.keyboard"),
            keyboard_leds,
        }
    }

    /// A mouse that reports movement.
    pub fn mouse_relative(instance: u8) -> (r: Self)
        ensures
            r.instance == instance,
            r.func_type == HidFunctionType::MouseRelative,
            r.name@ == "hid.mouse"@,
            !r.keyboard_leds,
    {
        HidFunction {
            instance,
            func_type: HidFunctionType::MouseRelative,
            name: owned("hid.mouse"),
            keyboard_leds: false,
        }
    }

    /// A pointer that reports places.
    pub fn mouse_absolute(instance: u8) -> (r: Self)
        ensures
            r.instance == instance,
            r.func_type == HidFunctionType::MouseAbsolute,
            r.name@ == numbered_name(instance),
            !r.keyboard_leds,
    {
        HidFunction {
            instance,
            func_type: HidFunctionType::MouseAbsolute,
            name: name_with_number(instance),
            keyboard_leds: false,
        }
    }

    /// Multimedia keys.
    pub fn consumer_control(instance: u8) -> (r: Self)
        ensures
            r.instance == instance,
            r.func_type == HidFunctionType::ConsumerControl,
            r.name@ == numbered_name(instance),
            !r.keyboard_leds,
    {
        HidFunction {
            instance,
            func_type: HidFunctionType::ConsumerControl,
            name: name_with_number(instance),
            keyboard_leds: false,
        }
    }

    /// Keyboard, pointers and multimedia keys over one interface.
    pub fn composite_keyboard_pointer(instance: u8) -> (r: Self)
        ensures
            r.instance == instance,
            r.func_type == HidFunctionType::CompositeKeyboardPointer,
            r.name@ == "hid.keyboard"@,
            !r.keyboard_leds,
    {
        HidFunction {
            instance,
            func_type: HidFunctionType::CompositeKeyboardPointer,
            name: owned("hid.keyboard"),
            keyboard_leds: false,
        }
    }

    /// The name of the function's directory.
    pub fn name(&self) -> (r: &str)
        ensures
            r@ == self.name@,
    {
        self.name.as_str()
    }

    /// The device node that reports are written to.
    pub fn device_path(&self) -> (r: String)
        ensures
            r@ == "/dev/hidg"@ + decimal(self.instance as nat),
    {
        let mut path = owned("/dev/hidg");
        append_decimal(&mut path, self.instance as u64);
        path
    }

    /// Where a function's directory stands.
    pub open spec fn dir(self, gadget_path: Seq<char>) -> Seq<char> {
        path_below(path_below(gadget_path, "functions"@), self.name@)
    }

    /// Where the function's directory stands.
    pub fn function_path(&self, gadget_path: &str) -> (r: String)
        ensures
            r@ == self.dir(gadget_path@),
    {
        let functions = path_join(gadget_path, "functions");
        path_join(functions.as_str(), self.name.as_str())
    }

    /// Where the function is linked into a configuration.
    pub fn link_path(&self, config_path: &str) -> (r: String)
        ensures
            r@ == path_below(config_path@, self.name@),
    {
        path_join(config_path, self.name.as_str())
    }

    /// How many endpoints the function takes.
    pub fn endpoints_required(&self) -> (r: u8)
        ensures
            r == (if self.func_type.has_out(self.keyboard_leds) {
                2u8
            } else {
                1u8
            }),
    {
        self.func_type.endpoints(self.keyboard_leds)
    }

    /// What is told of the function.
    pub fn meta(&self) -> (r: FunctionMeta)
        ensures
            r.name@ == self.name@,
            r.description@ == self.func_type.label(),
            r.endpoints == (if self.func_type.has_out(self.keyboard_leds) {
                2u8
            } else {
                1u8
            }),
            r.enabled,
    {
        FunctionMeta {
            name: self.name.clone(),
            description: owned(self.func_type.description()),
            endpoints: self.endpoints_required(),
            enabled: true,
        }
    }

    /// The files to write into the function's directory, in order. A kernel may refuse to do
    /// without the endpoint for reports that the function takes, which does not matter.
    pub fn create_writes(&self, gadget_path: &str, all: &ReportDescriptors) -> (r: Vec<
        AttributeWrite,
    >)
        ensures
            ({
                let dir = self.dir(gadget_path@);
                let no_out = !self.func_type.has_out(self.keyboard_leds);
                &&& r@.len() == if no_out {
                    5int
                } else {
                    4int
                }
                &&& writes(
                    r@[0],
                    dir,
                    "protocol"@,
                    vstd::utf8::encode_utf8(decimal(self.func_type.protocol_number() as nat)),
                    true,
                )
                &&& writes(
                    r@[1],
                    dir,
                    "subclass"@,
                    vstd::utf8::encode_utf8(decimal(self.func_type.subclass_number() as nat)),
                    true,
                )
                &&& writes(
                    r@[2],
                    dir,
                    "report_length"@,
                    vstd::utf8::encode_utf8(decimal(self.func_type.report_bytes() as nat)),
                    true,
                )
                &&& no_out ==> writes(
                    r@[3],
                    dir,
                    "no_out_endpoint"@,
                    vstd::utf8::encode_utf8("1"@),
                    false,
                )
                &&& writes(
                    r@.last(),
                    dir,
                    "report_desc"@,
                    self.func_type.descriptor(self.keyboard_leds, *all),
                    true,
                )
            }),
    {
        let dir = self.function_path(gadget_path);
        let mut out: Vec<AttributeWrite> = Vec::new();
        out.push(
            AttributeWrite {
                path: path_join(dir.as_str(), "protocol"),
                content: number_text(self.func_type.protocol()),
                required: true,
            },
        );
        out.push(
            AttributeWrite {
                path: path_join(dir.as_str(), "subclass"),
                content: number_text(self.func_type.subclass()),
                required: true,
            },
        );
        out.push(
            AttributeWrite {
                path: path_join(dir.as_str(), "report_length"),
                content: number_text(self.func_type.report_length(self.keyboard_leds)),
                required: true,
            },
        );
        if !self.func_type.uses_out_endpoint(self.keyboard_leds) {
            out.push(
                AttributeWrite {
                    path: path_join(dir.as_str(), "no_out_endpoint"),
                    content: ascii_bytes("1"),
                    required: false,
                },
            );
        }
        out.push(
            AttributeWrite {
                path: path_join(dir.as_str(), "report_desc"),
                content: vstd::slice::slice_to_vec(
                    self.func_type.report_desc(self.keyboard_leds, all),
                ),
                required: true,
            },
        );
        out
    }
}

/// A function takes one endpoint, or two where it has lights; only a keyboard has lights.
pub proof fn only_a_keyboard_with_lights_takes_two_endpoints(
    kind: HidFunctionType,
    keyboard_leds: bool,
)
    ensures
        kind.has_out(keyboard_leds) ==> kind == HidFunctionType::Keyboard,
        kind != HidFunctionType::Keyboard ==> !kind.has_out(keyboard_leds),
        !kind.has_out(false),
{
}

proof fn lemma_digit_text(n: nat)
    requires
        n < 10,
    ensures
        vstd::utf8::encode_utf8(decimal(n)) == seq![(48 + n) as u8],
        vstd::utf8::encode_utf8("1"@) == seq![49u8],
{
    let text = decimal(n);
    assert(text.len() == 1 && text[0] == (n + 48) as u8 as char);
    assert(vstd::utf8::is_ascii_chars(text));
    vstd::utf8::is_ascii_chars_encode_utf8(text);
    assert(vstd::utf8::encode_utf8(text) =~= seq![(48 + n) as u8]);
    reveal_strlit("1");
    assert(vstd::utf8::is_ascii_chars("1"@));
    vstd::utf8::is_ascii_chars_encode_utf8("1"@);
    assert(vstd::utf8::encode_utf8("1"@) =~= seq![49u8]);
}

/// A host learns from a function's descriptor what its reports mean, so every kind of function
/// writes its own: the bytes of one kind never come from the descriptor of another.
pub proof fn every_kind_writes_its_own_descriptor(
    f: HidFunction,
    gadget_path: &str,
    all: ReportDescriptors,
    made: Vec<AttributeWrite>,
)
    requires
        call_ensures(HidFunction::create_writes, (&f, gadget_path, &all), made),
    ensures
        f.func_type == HidFunctionType::Keyboard && f.keyboard_leds ==> made@.last().content@
            == all.keyboard_with_led@,
        f.func_type == HidFunctionType::Keyboard && !f.keyboard_leds ==> made@.last().content@
            == all.keyboard@,
        f.func_type == HidFunctionType::MouseRelative ==> made@.last().content@
            == all.mouse_relative@,
        f.func_type == HidFunctionType::MouseAbsolute ==> made@.last().content@
            == all.mouse_absolute@,
        f.func_type == HidFunctionType::ConsumerControl ==> made@.last().content@
            == all.consumer_control@,
        f.func_type == HidFunctionType::CompositeKeyboardPointer ==> made@.last().content@
            == all.composite_keyboard_pointer@,
        made@.last().path@ == path_below(f.dir(gadget_path@), "report_desc"@),
{
}

/// The made@ in front of the descriptor say how long a report is and whether firmware can use
/// the function: a keyboard and a mouse that reports movement can be used so, under protocols one
/// and two, and the made@ hold one digit each. Only a keyboard with lights is not told to do
/// without the endpoint for reports that it takes, and only that file may fail.
pub proof fn every_kind_states_its_reports(
    f: HidFunction,
    gadget_path: &str,
    all: ReportDescriptors,
    made: Vec<AttributeWrite>,
)
    requires
        call_ensures(HidFunction::create_writes, (&f, gadget_path, &all), made),
    ensures
        f.func_type == HidFunctionType::Keyboard ==> made@[0].content@ == seq![49u8]
            && made@[1].content@ == seq![49u8] && made@[2].content@ == seq![56u8],
        f.func_type == HidFunctionType::MouseRelative ==> made@[0].content@ == seq![50u8]
            && made@[1].content@ == seq![49u8] && made@[2].content@ == seq![52u8],
        f.func_type == HidFunctionType::MouseAbsolute ==> made@[0].content@ == seq![50u8]
            && made@[1].content@ == seq![48u8] && made@[2].content@ == seq![54u8],
        f.func_type == HidFunctionType::ConsumerControl ==> made@[0].content@ == seq![48u8]
            && made@[1].content@ == seq![48u8] && made@[2].content@ == seq![50u8],
        f.func_type == HidFunctionType::CompositeKeyboardPointer ==> made@[0].content@ == seq![48u8]
            && made@[1].content@ == seq![48u8] && made@[2].content@ == seq![57u8],
        made@.len() == 4 <==> f.func_type == HidFunctionType::Keyboard && f.keyboard_leds,
        made@.len() == 5 ==> made@[3].content@ == seq![49u8] && !made@[3].required,
        forall|i: int|
            0 <= i < made@.len() && !(i == 3 && made@.len() == 5) ==> (#[trigger] made@[i]).required,
        made@[0].path@ == path_below(f.dir(gadget_path@), "protocol"@),
        made@[1].path@ == path_below(f.dir(gadget_path@), "subclass"@),
        made@[2].path@ == path_below(f.dir(gadget_path@), "report_length"@),
        made@.len() == 5 ==> made@[3].path@ == path_below(f.dir(gadget_path@), "no_out_endpoint"@),
{
    lemma_digit_text(f.func_type.protocol_number() as nat);
    lemma_digit_text(f.func_type.subclass_number() as nat);
    lemma_digit_text(f.func_type.report_bytes() as nat);
}

/// Every constructor makes a function of the kind that it is named after, for the device node of
/// the given number; only a keyboard is given lights.
pub proof fn constructors_make_what_they_are_named_after(instance: u8, leds: bool, f: HidFunction)
    ensures
        call_ensures(HidFunction::keyboard, (instance, leds), f) ==> f.func_type
            == HidFunctionType::Keyboard && f.keyboard_leds == leds && f.instance == instance
            && f.name@ == "hid.keyboard"@,
        call_ensures(HidFunction::mouse_relative, (instance,), f) ==> f.func_type
            == HidFunctionType::MouseRelative && !f.keyboard_leds && f.instance == instance
            && f.name@ == "hid.mouse"@,
        call_ensures(HidFunction::mouse_absolute, (instance,), f) ==> f.func_type
            == HidFunctionType::MouseAbsolute && !f.keyboard_leds && f.instance == instance
            && f.name@ == "hid.usb"@ + decimal(instance as nat),
        call_ensures(HidFunction::consumer_control, (instance,), f) ==> f.func_type
            == HidFunctionType::ConsumerControl && !f.keyboard_leds && f.instance == instance
            && f.name@ == "hid.usb"@ + decimal(instance as nat),
        call_ensures(HidFunction::composite_keyboard_pointer, (instance,), f) ==> f.func_type
            == HidFunctionType::CompositeKeyboardPointer && !f.keyboard_leds && f.instance
            == instance && f.name@ == "hid.keyboard"@,
{
}

/// What is told of a function agrees with the function: its own name, the name of its kind, and
/// two endpoints exactly where a keyboard has lights. Its directory and its link carry its name.
pub proof fn what_is_told_of_a_function_is_true(
    f: HidFunction,
    meta: FunctionMeta,
    endpoints: u8,
    node: String,
    dir: String,
    link: String,
    place: &str,
)
    ensures
        call_ensures(HidFunction::meta, (&f,), meta) ==> meta.enabled && meta.name@ == f.name@
            && meta.endpoints == (if f.func_type == HidFunctionType::Keyboard && f.keyboard_leds {
            2u8
        } else {
            1u8
        }) && meta.description@ == (match f.func_type {
            HidFunctionType::Keyboard => "Keyboard"@,
            HidFunctionType::MouseRelative => "Relative Mouse"@,
            HidFunctionType::MouseAbsolute => "Absolute Mouse"@,
            HidFunctionType::ConsumerControl => "Consumer Control"@,
            HidFunctionType::CompositeKeyboardPointer => "Composite Keyboard/Pointer"@,
        }),
        call_ensures(HidFunction::endpoints_required, (&f,), endpoints) ==> endpoints == (
        if f.func_type == HidFunctionType::Keyboard && f.keyboard_leds {
            2u8
        } else {
            1u8
        }),
        call_ensures(HidFunction::device_path, (&f,), node) ==> node@ == "/dev/hidg"@ + decimal(
            f.instance as nat,
        ),
        call_ensures(HidFunction::function_path, (&f, place), dir) ==> dir@ == path_below(
            path_below(place@, "functions"@),
            f.name@,
        ),
        call_ensures(HidFunction::link_path, (&f, place), link) ==> link@ == path_below(
            place@,
            f.name@,
        ),
{
}

} // verus!
