//! User-interface description sinks: a module describes its widget tree
//! by driving calls against an abstract sink, which records nested boxes
//! (each opened scope closed exactly once), active controls bound to
//! parameter addresses, passive displays, and per-control metadata.

use vstd::prelude::*;

use crate::params::ParamAddress;
use crate::params::ParamValue;

verus! {

/// The flavor of a container node in the widget tree.
#[derive(Clone, Copy, PartialEq, Eq, Structural, Debug)]
pub enum BoxKind {
    Tab,
    Horizontal,
    Vertical,
}

/// One call a module makes against a UI sink, as recorded.
#[derive(Clone, PartialEq, Debug)]
pub enum UiEvent {
    /// A named container scope opens.
    OpenBox { kind: BoxKind, label: String },
    /// The innermost open scope closes.
    CloseBox,
    /// A momentary button bound to a parameter address.
    Button { label: String, addr: ParamAddress },
    /// A two-state toggle bound to a parameter address.
    Toggle { label: String, addr: ParamAddress },
    /// A continuous slider with initial value, range, and step.
    Slider {
        label: String,
        addr: ParamAddress,
        init: ParamValue,
        min: ParamValue,
        max: ParamValue,
        step: ParamValue,
    },
    /// A numeric entry field with initial value, range, and step.
    NumEntry {
        label: String,
        addr: ParamAddress,
        init: ParamValue,
        min: ParamValue,
        max: ParamValue,
        step: ParamValue,
    },
    /// A read-only bargraph display over a range.
    Bargraph { label: String, addr: ParamAddress, min: ParamValue, max: ParamValue },
    /// A (key, value) note attached to a control, or to the tree itself.
    MetaDecl { addr: Option<ParamAddress>, key: String, value: String },
}

/// The mathematical shape of one recorded call: labels and keys are
/// taken as character sequences so that contracts can speak of them.
pub enum UiNode {
    OpenBox { kind: BoxKind, label: Seq<char> },
    CloseBox,
    Button { label: Seq<char>, addr: ParamAddress },
    Toggle { label: Seq<char>, addr: ParamAddress },
    Slider {
        label: Seq<char>,
        addr: ParamAddress,
        init: ParamValue,
        min: ParamValue,
        max: ParamValue,
        step: ParamValue,
    },
    NumEntry {
        label: Seq<char>,
        addr: ParamAddress,
        init: ParamValue,
        min: ParamValue,
        max: ParamValue,
        step: ParamValue,
    },
    Bargraph { label: Seq<char>, addr: ParamAddress, min: ParamValue, max: ParamValue },
    MetaDecl { addr: Option<ParamAddress>, key: Seq<char>, value: Seq<char> },
}

impl View for UiEvent {
    type V = UiNode;

    open spec fn view(&self) -> UiNode {
        match self {
            UiEvent::OpenBox { kind, label } => UiNode::OpenBox { kind: *kind, label: label@ },
            UiEvent::CloseBox => UiNode::CloseBox,
            UiEvent::Button { label, addr } => UiNode::Button { label: label@, addr: *addr },
            UiEvent::Toggle { label, addr } => UiNode::Toggle { label: label@, addr: *addr },
            UiEvent::Slider { label, addr, init, min, max, step } => UiNode::Slider {
                label: label@,
                addr: *addr,
                init: *init,
                min: *min,
                max: *max,
                step: *step,
            },
            UiEvent::NumEntry { label, addr, init, min, max, step } => UiNode::NumEntry {
                label: label@,
                addr: *addr,
                init: *init,
                min: *min,
                max: *max,
                step: *step,
            },
            UiEvent::Bargraph { label, addr, min, max } => UiNode::Bargraph {
                label: label@,
                addr: *addr,
                min: *min,
                max: *max,
            },
            UiEvent::MetaDecl { addr, key, value } => UiNode::MetaDecl {
                addr: *addr,
                key: key@,
                value: value@,
            },
        }
    }
}

/// How one node changes the box-nesting depth: an open deepens the tree
/// by one, a close shallows it by one, leaves and notes leave it alone.
pub open spec fn box_delta(e: UiNode) -> int {
    match e {
        UiNode::OpenBox { .. } => 1,
        UiNode::CloseBox => -1,
        _ => 0,
    }
}

/// The box-nesting depth after all calls in `s` have run.
pub open spec fn box_depth(s: Seq<UiNode>) -> int
    decreases s.len(),
{
    if s.len() == 0 {
        0
    } else {
        box_depth(s.drop_last()) + box_delta(s.last())
    }
}

/// How many container scopes `s` opens.
pub open spec fn open_count(s: Seq<UiNode>) -> int
    decreases s.len(),
{
    if s.len() == 0 {
        0
    } else {
        open_count(s.drop_last()) + if s.last() is OpenBox {
            1int
        } else {
            0int
        }
    }
}

/// How many container scopes `s` closes.
pub open spec fn close_count(s: Seq<UiNode>) -> int
    decreases s.len(),
{
    if s.len() == 0 {
        0
    } else {
        close_count(s.drop_last()) + if s.last() is CloseBox {
            1int
        } else {
            0int
        }
    }
}

/// Whether one node is a leaf widget: an active control or a passive
/// display (a per-control metadata note is neither).
pub open spec fn is_widget(e: UiNode) -> bool {
    match e {
        UiNode::Button { .. } => true,
        UiNode::Toggle { .. } => true,
        UiNode::Slider { .. } => true,
        UiNode::NumEntry { .. } => true,
        UiNode::Bargraph { .. } => true,
        _ => false,
    }
}

/// How many leaf widgets `s` places in the tree.
pub open spec fn widget_count(s: Seq<UiNode>) -> int
    decreases s.len(),
{
    if s.len() == 0 {
        0
    } else {
        widget_count(s.drop_last()) + if is_widget(s.last()) {
            1int
        } else {
            0int
        }
    }
}

/// A complete, properly nested tree: every opened scope is closed
/// exactly once, and no prefix closes a scope that is not open.
pub open spec fn balanced(s: Seq<UiNode>) -> bool {
    &&& box_depth(s) == 0
    &&& forall|i: int| 0 <= i <= s.len() ==> #[trigger] box_depth(s.take(i)) >= 0
}

/// A sink for a module's widget-tree description.
///
/// The module drives one call per node; the sink owns the recorded tree.
/// Keeping every open matched by a close is the caller's obligation; a
/// recording sink can check it afterwards.
pub trait UiSink {
    /// The calls recorded so far, in call order.
    spec fn events(&self) -> Seq<UiNode>;

    /// Open a named container scope of the given kind.
    fn open_box(&mut self, kind: BoxKind, label: &str)
        ensures
            final(self).events() == old(self).events().push(
                UiNode::OpenBox { kind, label: label@ },
            ),
    ;

    /// Close the innermost open scope.
    fn close_box(&mut self)
        ensures
            final(self).events() == old(self).events().push(UiNode::CloseBox),
    ;

    /// Place a momentary button bound to `addr`.
    fn add_button(&mut self, label: &str, addr: ParamAddress)
        ensures
            final(self).events() == old(self).events().push(
                UiNode::Button { label: label@, addr },
            ),
    ;

    /// Place a two-state toggle bound to `addr`.
    fn add_toggle(&mut self, label: &str, addr: ParamAddress)
        ensures
            final(self).events() == old(self).events().push(
                UiNode::Toggle { label: label@, addr },
            ),
    ;

    /// Place a slider bound to `addr`, with initial value, range, and step.
    fn add_slider(
        &mut self,
        label: &str,
        addr: ParamAddress,
        init: ParamValue,
        min: ParamValue,
        max: ParamValue,
        step: ParamValue,
    )
        ensures
            final(self).events() == old(self).events().push(
                UiNode::Slider { label: label@, addr, init, min, max, step },
            ),
    ;

    /// Place a numeric entry field bound to `addr`.
    fn add_num_entry(
        &mut self,
        label: &str,
        addr: ParamAddress,
        init: ParamValue,
        min: ParamValue,
        max: ParamValue,
        step: ParamValue,
    )
        ensures
            final(self).events() == old(self).events().push(
                UiNode::NumEntry { label: label@, addr, init, min, max, step },
            ),
    ;

    /// Place a read-only bargraph display bound to `addr`.
    fn add_bargraph(&mut self, label: &str, addr: ParamAddress, min: ParamValue, max: ParamValue)
        ensures
            final(self).events() == old(self).events().push(
                UiNode::Bargraph { label: label@, addr, min, max },
            ),
    ;

    /// Attach a (key, value) note to a control, or to the tree itself.
    fn declare_meta(&mut self, addr: Option<ParamAddress>, key: &str, value: &str)
        ensures
            final(self).events() == old(self).events().push(
                UiNode::MetaDecl { addr, key: key@, value: value@ },
            ),
    ;
}

/// A sink that keeps every call, in call order, and can check that the
/// recorded tree is properly nested.
pub struct UiRecorder {
    pub log: Vec<UiEvent>,
}

impl UiRecorder {
    /// An empty recorder.
    pub fn new() -> (r: UiRecorder)
        ensures
            r.events() == Seq::<UiNode>::empty(),
    {
        UiRecorder { log: Vec::new() }
    }

    /// How many calls have been recorded.
    pub fn len(&self) -> (r: usize)
        ensures
            r == self.events().len(),
    {
        self.log.len()
    }

    /// Whether the recorded tree is complete and properly nested:
    /// every open has a matching close and no close comes early.
    pub fn well_nested(&self) -> (r: bool)
        ensures
            r == balanced(self.events()),
    {
        let ghost evs = self.events();
        let mut depth: usize = 0;
        let mut i: usize = 0;
        while i < self.log.len()
            invariant
                0 <= i <= self.log.len(),
                evs == self.events(),
                evs.len() == self.log.len(),
                depth <= i,
                depth == box_depth(evs.take(i as int)),
                forall|j: int| 0 <= j <= i ==> #[trigger] box_depth(evs.take(j)) >= 0,
            decreases self.log.len() - i,
        {
            proof {
                assert(evs.take(i + 1).drop_last() =~= evs.take(i as int));
                assert(evs.take(i + 1).last() == evs[i as int]);
            }
            match &self.log[i] {
                UiEvent::OpenBox { .. } => {
                    depth = depth + 1;
                },
                UiEvent::CloseBox => {
                    if depth == 0 {
                        proof {
                            assert(box_depth(evs.take(i + 1)) < 0);
                        }
                        return false;
                    }
                    depth = depth - 1;
                },
                _ => {},
            }
            i = i + 1;
        }
        proof {
            assert(evs.take(self.log.len() as int) =~= evs);
        }
        depth == 0
    }
}

impl UiSink for UiRecorder {
    open spec fn events(&self) -> Seq<UiNode> {
        self.log@.map_values(|e: UiEvent| e@)
    }

    fn open_box(&mut self, kind: BoxKind, label: &str) {
        self.log.push(UiEvent::OpenBox { kind, label: label.to_owned() });
        proof {
            assert(self.events() =~= old(self).events().push(
                UiNode::OpenBox { kind, label: label@ },
            ));
        }
    }

    fn close_box(&mut self) {
        self.log.push(UiEvent::CloseBox);
        proof {
            assert(self.events() =~= old(self).events().push(UiNode::CloseBox));
        }
    }

    fn add_button(&mut self, label: &str, addr: ParamAddress) {
        self.log.push(UiEvent::Button { label: label.to_owned(), addr });
        proof {
            assert(self.events() =~= old(self).events().push(
                UiNode::Button { label: label@, addr },
            ));
        }
    }

    fn add_toggle(&mut self, label: &str, addr: ParamAddress) {
        self.log.push(UiEvent::Toggle { label: label.to_owned(), addr });
        proof {
            assert(self.events() =~= old(self).events().push(
                UiNode::Toggle { label: label@, addr },
            ));
        }
    }

    fn add_slider(
        &mut self,
        label: &str,
        addr: ParamAddress,
        init: ParamValue,
        min: ParamValue,
        max: ParamValue,
        step: ParamValue,
    ) {
        self.log.push(UiEvent::Slider { label: label.to_owned(), addr, init, min, max, step });
        proof {
            assert(self.events() =~= old(self).events().push(
                UiNode::Slider { label: label@, addr, init, min, max, step },
            ));
        }
    }

    fn add_num_entry(
        &mut self,
        label: &str,
        addr: ParamAddress,
        init: ParamValue,
        min: ParamValue,
        max: ParamValue,
        step: ParamValue,
    ) {
        self.log.push(UiEvent::NumEntry { label: label.to_owned(), addr, init, min, max, step });
        proof {
            assert(self.events() =~= old(self).events().push(
                UiNode::NumEntry { label: label@, addr, init, min, max, step },
            ));
        }
    }

    fn add_bargraph(&mut self, label: &str, addr: ParamAddress, min: ParamValue, max: ParamValue) {
        self.log.push(UiEvent::Bargraph { label: label.to_owned(), addr, min, max });
        proof {
            assert(self.events() =~= old(self).events().push(
                UiNode::Bargraph { label: label@, addr, min, max },
            ));
        }
    }

    fn declare_meta(&mut self, addr: Option<ParamAddress>, key: &str, value: &str) {
        self.log.push(UiEvent::MetaDecl { addr, key: key.to_owned(), value: value.to_owned() });
        proof {
            assert(self.events() =~= old(self).events().push(
                UiNode::MetaDecl { addr, key: key@, value: value@ },
            ));
        }
    }
}

} // verus!
