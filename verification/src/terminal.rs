//! The terminal that a session runs on.

use vstd::prelude::*;
use vstd::string::*;

use crate::error::prefixed;
use crate::json;
use crate::text;

verus! {

/// Where a session runs: on a virtual terminal, or on the daemon's own
/// standard input.
#[derive(Debug, Clone)]
pub enum TerminalMode {
    Vt { path: String, vt: u32, switch: bool },
    Stdin,
}

/// The contents of a [`TerminalMode`].
pub enum TerminalModeView {
    Vt { path: Seq<char>, vt: u32, switch: bool },
    Stdin,
}

impl View for TerminalMode {
    type V = TerminalModeView;

    open spec fn view(&self) -> TerminalModeView {
        match self {
            TerminalMode::Vt { path, vt, switch } => TerminalModeView::Vt {
                path: path@,
                vt: *vt,
                switch: *switch,
            },
            TerminalMode::Stdin => TerminalModeView::Stdin,
        }
    }
}

/// The device of the virtual terminal `vt`.
pub open spec fn device(vt: u32) -> Seq<char> {
    "/dev/tty"@ + text::decimal(vt as nat)
}

impl TerminalModeView {
    /// The virtual terminal `vt`, on its own device.
    pub open spec fn on_vt(vt: u32, switch: bool) -> TerminalModeView {
        TerminalModeView::Vt { path: device(vt), vt, switch }
    }

    /// The terminal as JSON text.
    pub open spec fn json(self) -> Seq<char> {
        match self {
            TerminalModeView::Vt { path, vt, switch } => json::object(
                seq![
                    json::member(
                        "Vt"@,
                        json::object(
                            seq![
                                json::member("path"@, json::string_text(path)),
                                json::member("vt"@, text::decimal(vt as nat)),
                                json::member("switch"@, json::boolean(switch)),
                            ],
                        ),
                    ),
                ],
            ),
            TerminalModeView::Stdin => json::quoted("Stdin"@),
        }
    }
}

/// The device of the virtual terminal `vt`.
pub fn device_path(vt: u32) -> (r: String)
    ensures
        r@ == device(vt),
{
    prefixed("/dev/tty", text::decimal_text(vt as u64).as_str())
}

/// The number of the active virtual terminal that the kernel reports.
pub open spec fn active_vt(v_active: u16) -> u32 {
    v_active as u32
}

/// The unsigned number with the bits of a signed one.
pub open spec fn unsigned(n: i32) -> u32 {
    if n >= 0 {
        n as u32
    } else {
        (n + 0x1_0000_0000) as u32
    }
}

/// The signed number with the bits of an unsigned one.
pub open spec fn signed(n: u32) -> i32 {
    if n <= i32::MAX {
        n as i32
    } else {
        (n - 0x1_0000_0000) as i32
    }
}

/// The number of the active virtual terminal, out of the kernel's report.
pub fn current_vt(v_active: u16) -> (r: u32)
    ensures
        r == v_active,
        r == active_vt(v_active),
{
    v_active as u32
}

/// The number of a free virtual terminal, out of the kernel's answer. The
/// kernel's negative number for "none is free" turns into a large one.
pub fn next_vt(answer: i32) -> (r: u32)
    ensures
        answer >= 0 ==> r == answer,
        answer < 0 ==> r == answer + 0x1_0000_0000,
        r == unsigned(answer),
{
    assert(answer >= 0 ==> answer as u32 == answer) by (bit_vector);
    assert(answer < 0 ==> answer as u32 == answer + 0x1_0000_0000) by (bit_vector);
    #[verifier::truncate] (answer as u32)
}

/// The argument that asks the kernel to activate the virtual terminal `vt`.
pub fn activate(vt: u32) -> (r: i32)
    ensures
        vt <= i32::MAX ==> r == vt,
        vt > i32::MAX ==> r == vt - 0x1_0000_0000,
        r == signed(vt),
{
    assert(vt <= 0x7fff_ffff ==> vt as i32 == vt) by (bit_vector);
    assert(vt > 0x7fff_ffff ==> vt as i32 == vt - 0x1_0000_0000) by (bit_vector);
    #[verifier::truncate] (vt as i32)
}

impl TerminalMode {
    /// Copies the terminal's description.
    pub fn copy(&self) -> (r: TerminalMode)
        ensures
            r@ == self@,
    {
        match self {
            TerminalMode::Vt { path, vt, switch } => TerminalMode::Vt {
                path: path.clone(),
                vt: *vt,
                switch: *switch,
            },
            TerminalMode::Stdin => TerminalMode::Stdin,
        }
    }

    /// Renders the terminal as JSON text.
    pub fn to_json(&self) -> (r: String)
        ensures
            r@ == self@.json(),
    {
        match self {
            TerminalMode::Vt { path, vt, switch } => {
                let fields = vec![
                    json::member_text("path", json::string(path.as_str()).as_str()),
                    json::member_text("vt", text::decimal_text(*vt as u64).as_str()),
                    json::member_text("switch", json::boolean_text(*switch).as_str()),
                ];
                assert(fields.deep_view() =~= seq![
                    json::member("path"@, json::string_text(path@)),
                    json::member("vt"@, text::decimal(*vt as nat)),
                    json::member("switch"@, json::boolean(*switch)),
                ]);
                let body = json::object_text(&fields);
                let members = vec![json::member_text("Vt", body.as_str())];
                assert(members.deep_view() =~= seq![json::member("Vt"@, body@)]);
                json::object_text(&members)
            },
            TerminalMode::Stdin => json::quoted_text("Stdin"),
        }
    }
}

/// The kernel is asked for the very terminal that it named: turning its answer
/// into a number and the number into an argument gives the answer back, and
/// every number that fits both ways stays what it is.
pub proof fn terminal_numbers_go_back_and_forth(answer: i32, vt: u32, v_active: u16)
    ensures
        signed(unsigned(answer)) == answer,
        unsigned(signed(vt)) == vt,
        answer >= 0 ==> unsigned(answer) == answer,
        vt <= i32::MAX ==> signed(vt) == vt,
        active_vt(v_active) == v_active,
{
}

/// A virtual terminal has the device of its number, and is the terminal of that
/// number, switched to as is said.
pub proof fn terminals_have_devices(vt: u32, switch: bool)
    ensures
        device(vt) == "/dev/tty"@ + text::decimal(vt as nat),
        TerminalModeView::on_vt(vt, switch) == (TerminalModeView::Vt {
            path: "/dev/tty"@ + text::decimal(vt as nat),
            vt,
            switch,
        }),
{
}

/// A terminal's description keeps what it holds.
pub proof fn terminals_are_kept(path: String, vt: u32, switch: bool)
    ensures
        (TerminalMode::Vt { path, vt, switch })@ == (TerminalModeView::Vt {
            path: path@,
            vt,
            switch,
        }),
        TerminalMode::Stdin@ == TerminalModeView::Stdin,
{
}

} // verus!
