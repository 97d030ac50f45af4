//! The diagnostic report of a device transition.

use vstd::prelude::*;
use crate::device::{text_of, DeviceTransition, DeviceTransitionView, TransitionKind};
use crate::text::{debug_form, debug_text};

verus! {

/// The line that opens and closes a report.
pub open spec fn rule() -> Seq<char> {
    "==============================="@
}

/// The platform's word for a transition.
pub open spec fn action_word(kind: TransitionKind) -> Seq<char> {
    match kind {
        TransitionKind::Added => "add"@,
        TransitionKind::Removed => "remove"@,
    }
}

/// The `Debug` form of a value that may be absent.
pub open spec fn quoted(value: Option<Seq<char>>) -> Option<Seq<char>> {
    match value {
        Some(text) => Some(debug_form(text)),
        None => None,
    }
}

/// The report line of one field: its label and value, or no line when the
/// value is absent.
pub open spec fn field_line(label: Seq<char>, value: Option<Seq<char>>) -> Seq<Seq<char>> {
    match value {
        Some(text) => seq![label + text],
        None => Seq::empty(),
    }
}

/// The lines of the report of a transition: a rule, one line for each field
/// that is present, a rule, and an empty line. The node, the subsystem, the
/// device type and the action are shown in their `Debug` form.
pub open spec fn report_lines(transition: DeviceTransitionView) -> Seq<Seq<char>> {
    let info = transition.info;
    seq![rule()]
        + field_line("Device Node: "@, Some(debug_form(transition.device_node)))
        + field_line("Subsystem: "@, quoted(info.subsystem))
        + field_line("Device Type: "@, quoted(info.device_type))
        + field_line("Action: "@, Some(debug_form(action_word(transition.kind))))
        + field_line("Vendor ID: "@, info.vendor_id)
        + field_line("Product ID: "@, info.product_id)
        + field_line("Manufacturer: "@, info.manufacturer)
        + field_line("Product Name: "@, info.product)
        + field_line("Serial Number: "@, info.serial)
        + seq![rule(), Seq::empty()]
}

/// Appends the line `text` to `lines`.
fn push_text(lines: &mut Vec<String>, text: String)
    ensures
        final(lines).deep_view() == old(lines).deep_view().push(text@),
{
    lines.push(text);
    assert(lines.deep_view() =~= old(lines).deep_view().push(text@));
}

/// Appends the line of a field whose value is shown as it is.
fn push_plain(lines: &mut Vec<String>, label: &str, value: &Option<String>)
    ensures
        final(lines).deep_view() == old(lines).deep_view() + field_line(
            label@,
            text_of(*value),
        ),
{
    match value {
        Some(text) => {
            push_text(lines, String::from_str(label).concat(text.as_str()));
            assert(lines.deep_view() =~= old(lines).deep_view() + seq![label@ + text@]);
        },
        None => {
            assert(lines.deep_view() =~= old(lines).deep_view() + Seq::<Seq<char>>::empty());
        },
    }
}

/// Appends the line of a field whose value is shown in its `Debug` form.
fn push_quoted(lines: &mut Vec<String>, label: &str, value: &str)
    ensures
        final(lines).deep_view() == old(lines).deep_view() + field_line(
            label@,
            Some(debug_form(value@)),
        ),
{
    let shown = debug_text(value);
    push_text(lines, String::from_str(label).concat(shown.as_str()));
    assert(lines.deep_view() =~= old(lines).deep_view() + seq![label@ + debug_form(value@)]);
}

/// Appends the line of an optional field whose value is shown in its `Debug`
/// form.
fn push_quoted_if_present(lines: &mut Vec<String>, label: &str, value: &Option<String>)
    ensures
        final(lines).deep_view() == old(lines).deep_view() + field_line(
            label@,
            quoted(text_of(*value)),
        ),
{
    match value {
        Some(text) => {
            push_quoted(lines, label, text.as_str());
        },
        None => {
            assert(lines.deep_view() =~= old(lines).deep_view() + Seq::<Seq<char>>::empty());
        },
    }
}

/// Builds the diagnostic report of `transition`, line by line.
pub fn report(transition: &DeviceTransition) -> (lines: Vec<String>)
    ensures
        lines.deep_view() == report_lines(transition@),
{
    let mut lines: Vec<String> = Vec::new();
    push_text(&mut lines, String::from_str("==============================="));
    assert(lines.deep_view() =~= seq![rule()]);
    push_quoted(&mut lines, "Device Node: ", transition.device_node.as_str());
    push_quoted_if_present(&mut lines, "Subsystem: ", &transition.info.subsystem);
    push_quoted_if_present(&mut lines, "Device Type: ", &transition.info.device_type);
    let word = match transition.kind {
        TransitionKind::Added => "add",
        TransitionKind::Removed => "remove",
    };
    push_quoted(&mut lines, "Action: ", word);
    push_plain(&mut lines, "Vendor ID: ", &transition.info.vendor_id);
    push_plain(&mut lines, "Product ID: ", &transition.info.product_id);
    push_plain(&mut lines, "Manufacturer: ", &transition.info.manufacturer);
    push_plain(&mut lines, "Product Name: ", &transition.info.product);
    push_plain(&mut lines, "Serial Number: ", &transition.info.serial);
    let ghost before = lines.deep_view();
    push_text(&mut lines, String::from_str("==============================="));
    push_text(&mut lines, String::new());
    assert(lines.deep_view() =~= before + seq![rule(), Seq::empty()]);
    lines
}

} // verus!
