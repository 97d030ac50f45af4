//! What is done for a device transition.

use vstd::prelude::*;
use crate::attributes::Attributes;
use crate::config::{Config, ConfigView};
use crate::device::{
    accept,
    accepted,
    text_of,
    transition_of,
    DeviceTransition,
    DeviceTransitionView,
    RawEvent,
    TransitionKind,
};
use crate::report::{report, report_lines};
use crate::sound::{cue_of, SoundCue};
use crate::template::{render, rendered};

verus! {

/// A desktop notification.
#[derive(Debug, Clone, PartialEq, Eq)]
pub struct Notice {
    pub title: String,
    pub body: String,
}

/// Everything that is done for one transition, in the order of the fields.
/// Each part is carried out whether or not the one before it succeeded.
#[derive(Debug, Clone, PartialEq, Eq)]
pub struct Dispatch {
    /// The diagnostic report, line by line.
    pub report: Vec<String>,
    /// The notification to show, if notifications are enabled.
    pub notice: Option<Notice>,
    /// The sound to play.
    pub sound: SoundCue,
}

/// Mathematical content of a [`Notice`].
pub struct NoticeView {
    pub title: Seq<char>,
    pub body: Seq<char>,
}

/// Mathematical content of a [`Dispatch`].
pub struct DispatchView {
    pub report: Seq<Seq<char>>,
    pub notice: Option<NoticeView>,
    pub sound: SoundCue,
}

impl View for Notice {
    type V = NoticeView;

    open spec fn view(&self) -> NoticeView {
        NoticeView { title: self.title@, body: self.body@ }
    }
}

impl View for Dispatch {
    type V = DispatchView;

    open spec fn view(&self) -> DispatchView {
        DispatchView {
            report: self.report.deep_view(),
            notice: match self.notice {
                Some(notice) => Some(notice@),
                None => None,
            },
            sound: self.sound,
        }
    }
}

/// The title of the notification for a transition.
pub open spec fn title_of(kind: TransitionKind) -> Seq<char> {
    match kind {
        TransitionKind::Added => "USB Device Added"@,
        TransitionKind::Removed => "USB Device Removed"@,
    }
}

/// The value of an attribute: what the platform supplied, or `Unknown`.
pub open spec fn or_unknown(value: Option<Seq<char>>) -> Seq<char> {
    match value {
        Some(text) => text,
        None => "Unknown"@,
    }
}

/// The attributes that a message template can refer to.
pub open spec fn attributes_of(transition: DeviceTransitionView) -> Map<Seq<char>, Seq<char>> {
    let info = transition.info;
    Map::<Seq<char>, Seq<char>>::empty()
        .insert("devnode"@, transition.device_node)
        .insert("device_type"@, or_unknown(info.device_type))
        .insert("product"@, or_unknown(info.product))
        .insert("manufacturer"@, or_unknown(info.manufacturer))
        .insert("subsystem"@, or_unknown(info.subsystem))
        .insert("vendor_id"@, or_unknown(info.vendor_id))
        .insert("product_id"@, or_unknown(info.product_id))
        .insert("serial"@, or_unknown(info.serial))
}

/// What is done for `transition` under `config`: the report is always
/// written and the sound of the transition always played; the notification
/// is shown exactly when notifications are enabled, and its body is the
/// configured template rendered with the attributes of the transition.
pub open spec fn dispatch_of(config: ConfigView, transition: DeviceTransitionView) -> DispatchView {
    DispatchView {
        report: report_lines(transition),
        notice: if config.notification {
            Some(
                NoticeView {
                    title: title_of(transition.kind),
                    body: rendered(config.notify_message, attributes_of(transition)),
                },
            )
        } else {
            None
        },
        sound: cue_of(transition.kind),
    }
}

/// A notification is part of what is done exactly when notifications are
/// enabled; the sound of the transition is played either way.
pub proof fn lemma_notification_gated(config: ConfigView, transition: DeviceTransitionView)
    ensures
        dispatch_of(config, transition).notice is Some <==> config.notification,
        dispatch_of(config, transition).sound == cue_of(transition.kind),
        transition.kind == TransitionKind::Added ==> dispatch_of(config, transition).sound
            == SoundCue::Connect,
        transition.kind == TransitionKind::Removed ==> dispatch_of(config, transition).sound
            == SoundCue::Disconnect,
{
}

/// The template sees eight attributes. Each has the value that the platform
/// supplied, or `Unknown` where it supplied none; the node is always known.
pub proof fn lemma_attribute_values(transition: DeviceTransitionView)
    ensures
        attributes_of(transition).dom() =~= set![
            "devnode"@,
            "device_type"@,
            "product"@,
            "manufacturer"@,
            "subsystem"@,
            "vendor_id"@,
            "product_id"@,
            "serial"@,
        ],
        attributes_of(transition)["devnode"@] == transition.device_node,
        attributes_of(transition)["device_type"@] == or_unknown(transition.info.device_type),
        attributes_of(transition)["product"@] == or_unknown(transition.info.product),
        attributes_of(transition)["manufacturer"@] == or_unknown(transition.info.manufacturer),
        attributes_of(transition)["subsystem"@] == or_unknown(transition.info.subsystem),
        attributes_of(transition)["vendor_id"@] == or_unknown(transition.info.vendor_id),
        attributes_of(transition)["product_id"@] == or_unknown(transition.info.product_id),
        attributes_of(transition)["serial"@] == or_unknown(transition.info.serial),
{
    reveal_strlit("devnode");
    reveal_strlit("device_type");
    reveal_strlit("product");
    reveal_strlit("manufacturer");
    reveal_strlit("subsystem");
    reveal_strlit("vendor_id");
    reveal_strlit("product_id");
    reveal_strlit("serial");
    assert("devnode"@.len() == 7 && "product"@.len() == 7 && "serial"@.len() == 6);
    assert("device_type"@.len() == 11 && "manufacturer"@.len() == 12);
    assert("subsystem"@.len() == 9 && "vendor_id"@.len() == 9 && "product_id"@.len() == 10);
    assert("devnode"@[0] == 'd' && "product"@[0] == 'p');
    assert("subsystem"@[0] == 's' && "vendor_id"@[0] == 'v');
}

/// Binds `name` to `value`, or to `Unknown` when `value` is absent.
fn bind(attributes: &mut Attributes, name: &str, value: &Option<String>)
    ensures
        final(attributes)@ == old(attributes)@.insert(
            name@,
            or_unknown(text_of(*value)),
        ),
{
    match value {
        Some(text) => attributes.insert(name, text.as_str()),
        None => attributes.insert(name, "Unknown"),
    }
}

/// Collects the attributes of `transition` for the message template.
pub fn template_attributes(transition: &DeviceTransition) -> (attributes: Attributes)
    ensures
        attributes@ == attributes_of(transition@),
{
    let mut attributes = Attributes::new();
    attributes.insert("devnode", transition.device_node.as_str());
    bind(&mut attributes, "device_type", &transition.info.device_type);
    bind(&mut attributes, "product", &transition.info.product);
    bind(&mut attributes, "manufacturer", &transition.info.manufacturer);
    bind(&mut attributes, "subsystem", &transition.info.subsystem);
    bind(&mut attributes, "vendor_id", &transition.info.vendor_id);
    bind(&mut attributes, "product_id", &transition.info.product_id);
    bind(&mut attributes, "serial", &transition.info.serial);
    attributes
}

/// Decides what is done for `transition` under `config`.
pub fn handle(config: &Config, transition: &DeviceTransition) -> (dispatch: Dispatch)
    ensures
        dispatch@ == dispatch_of(config@, transition@),
{
    let report = report(transition);
    let attributes = template_attributes(transition);
    let body = render(config.notify_message.as_str(), &attributes);
    let (title, sound) = match transition.kind {
        TransitionKind::Added => ("USB Device Added", SoundCue::Connect),
        TransitionKind::Removed => ("USB Device Removed", SoundCue::Disconnect),
    };
    let notice = if config.notification {
        Some(Notice { title: String::from_str(title), body })
    } else {
        None
    };
    Dispatch { report, notice, sound }
}

/// Filters `event` and decides what is done for it: nothing for an event
/// that is not accepted, else what [`handle`] decides for its transition.
pub fn process(config: &Config, event: RawEvent) -> (dispatch: Option<Dispatch>)
    ensures
        dispatch is Some <==> accepted(event@),
        dispatch matches Some(d) ==> d@ == dispatch_of(config@, transition_of(event@)),
{
    match accept(event) {
        Some(transition) => Some(handle(config, &transition)),
        None => None,
    }
}

} // verus!
