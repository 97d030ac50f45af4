//! Hotplug events and the filter that turns them into device transitions.

use vstd::prelude::*;

verus! {

/// What a hotplug event reports to have happened to a device.
#[derive(Debug, Clone, Copy, PartialEq, Eq, Structural)]
pub enum EventAction {
    Add,
    Change,
    Remove,
    Bind,
    Unbind,
    Unknown,
}

/// The two transitions that are acted upon.
#[derive(Debug, Clone, Copy, PartialEq, Eq, Structural)]
pub enum TransitionKind {
    Added,
    Removed,
}

/// Identification of a device. Each field is absent when the platform did
/// not supply it.
#[derive(Debug, Clone, PartialEq, Eq)]
pub struct DeviceInfo {
    pub subsystem: Option<String>,
    pub device_type: Option<String>,
    pub vendor_id: Option<String>,
    pub product_id: Option<String>,
    pub manufacturer: Option<String>,
    pub product: Option<String>,
    pub serial: Option<String>,
}

impl DeviceInfo {
    /// The identification of a device of which nothing is known.
    pub fn unknown() -> (info: Self)
        ensures
            info@ == (DeviceInfoView {
                subsystem: None,
                device_type: None,
                vendor_id: None,
                product_id: None,
                manufacturer: None,
                product: None,
                serial: None,
            }),
    {
        DeviceInfo {
            subsystem: None,
            device_type: None,
            vendor_id: None,
            product_id: None,
            manufacturer: None,
            product: None,
            serial: None,
        }
    }
}

/// A hotplug event as the platform delivers it.
#[derive(Debug, Clone, PartialEq, Eq)]
pub struct RawEvent {
    /// Whether the platform has finished setting the device up.
    pub initialized: bool,
    pub action: EventAction,
    pub device_node: Option<String>,
    pub info: DeviceInfo,
}

/// An attach or detach of a device that has a node.
#[derive(Debug, Clone, PartialEq, Eq)]
pub struct DeviceTransition {
    pub kind: TransitionKind,
    pub device_node: String,
    pub info: DeviceInfo,
}

/// The characters of an optional string.
pub open spec fn text_of(value: Option<String>) -> Option<Seq<char>> {
    match value {
        Some(text) => Some(text@),
        None => None,
    }
}

/// Mathematical content of a [`DeviceInfo`].
pub struct DeviceInfoView {
    pub subsystem: Option<Seq<char>>,
    pub device_type: Option<Seq<char>>,
    pub vendor_id: Option<Seq<char>>,
    pub product_id: Option<Seq<char>>,
    pub manufacturer: Option<Seq<char>>,
    pub product: Option<Seq<char>>,
    pub serial: Option<Seq<char>>,
}

/// Mathematical content of a [`RawEvent`].
pub struct RawEventView {
    pub initialized: bool,
    pub action: EventAction,
    pub device_node: Option<Seq<char>>,
    pub info: DeviceInfoView,
}

/// Mathematical content of a [`DeviceTransition`].
pub struct DeviceTransitionView {
    pub kind: TransitionKind,
    pub device_node: Seq<char>,
    pub info: DeviceInfoView,
}

impl View for DeviceInfo {
    type V = DeviceInfoView;

    open spec fn view(&self) -> DeviceInfoView {
        DeviceInfoView {
            subsystem: text_of(self.subsystem),
            device_type: text_of(self.device_type),
            vendor_id: text_of(self.vendor_id),
            product_id: text_of(self.product_id),
            manufacturer: text_of(self.manufacturer),
            product: text_of(self.product),
            serial: text_of(self.serial),
        }
    }
}

impl View for RawEvent {
    type V = RawEventView;

    open spec fn view(&self) -> RawEventView {
        RawEventView {
            initialized: self.initialized,
            action: self.action,
            device_node: text_of(self.device_node),
            info: self.info@,
        }
    }
}

impl View for DeviceTransition {
    type V = DeviceTransitionView;

    open spec fn view(&self) -> DeviceTransitionView {
        DeviceTransitionView { kind: self.kind, device_node: self.device_node@, info: self.info@ }
    }
}

/// The transition that an action stands for, if it is one that is acted
/// upon.
pub open spec fn kind_of(action: EventAction) -> Option<TransitionKind> {
    match action {
        EventAction::Add => Some(TransitionKind::Added),
        EventAction::Remove => Some(TransitionKind::Removed),
        _ => None,
    }
}

/// Whether an event is acted upon: the device is initialized, it has a
/// non-empty node, and it was added or removed.
pub open spec fn accepted(event: RawEventView) -> bool {
    &&& event.initialized
    &&& event.device_node is Some
    &&& event.device_node->0.len() > 0
    &&& kind_of(event.action) is Some
}

/// The transition that an accepted event reports.
pub open spec fn transition_of(event: RawEventView) -> DeviceTransitionView
    recommends
        accepted(event),
{
    DeviceTransitionView {
        kind: kind_of(event.action)->0,
        device_node: event.device_node->0,
        info: event.info,
    }
}

/// An event of a device that is not initialized yields no transition,
/// whatever else it holds.
pub proof fn lemma_uninitialized_dropped(event: RawEventView)
    requires
        !event.initialized,
    ensures
        !accepted(event),
{
}

/// An event without a device node, or with an empty one, yields no
/// transition.
pub proof fn lemma_nodeless_dropped(event: RawEventView)
    requires
        event.device_node is None || event.device_node->0.len() == 0,
    ensures
        !accepted(event),
{
}

/// An event whose action is neither an addition nor a removal yields no
/// transition.
pub proof fn lemma_other_actions_dropped(event: RawEventView)
    requires
        event.action != EventAction::Add,
        event.action != EventAction::Remove,
    ensures
        !accepted(event),
{
}

/// An addition or removal of an initialized device with a non-empty node
/// yields the transition of that kind and node, with the identification of
/// the event.
pub proof fn lemma_transition_reported(event: RawEventView, node: Seq<char>)
    requires
        event.initialized,
        event.device_node == Some(node),
        node.len() > 0,
        event.action == EventAction::Add || event.action == EventAction::Remove,
    ensures
        accepted(event),
        transition_of(event).kind == if event.action == EventAction::Add {
            TransitionKind::Added
        } else {
            TransitionKind::Removed
        },
        transition_of(event).device_node == node,
        transition_of(event).info == event.info,
{
}

/// Filters a hotplug event. An accepted event yields its transition, with
/// the node and the identification taken over unchanged; any other event
/// yields nothing.
pub fn accept(event: RawEvent) -> (transition: Option<DeviceTransition>)
    ensures
        transition is Some <==> accepted(event@),
        transition matches Some(t) ==> t@ == transition_of(event@),
{
    if !event.initialized {
        return None;
    }
    let kind = match event.action {
        EventAction::Add => TransitionKind::Added,
        EventAction::Remove => TransitionKind::Removed,
        _ => {
            return None;
        },
    };
    match event.device_node {
        Some(device_node) => {
            if device_node.as_str().is_empty() {
                None
            } else {
                Some(DeviceTransition { kind, device_node, info: event.info })
            }
        },
        None => None,
    }
}

} // verus!
