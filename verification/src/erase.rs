//! The type-erasure layer: heterogeneous components and user actions
//! stored behind one handle each, identified by type tag and downcast
//! safely.
//!
//! The two handles deliberately fail differently on a mismatched cast.
//! Object casts fail *closed* — the caller gets nothing and is expected to
//! have checked — while action casts fail *open* with the probed type's
//! default value, because every handler in a dispatch table probes every
//! action and must not need per-call error checking.
//!
//! Erasure is a closed tagged union over the crate's component set; the
//! capability traits [`LiveComponent`] and [`LiveAction`] are what a type
//! registers to take part, playing the role of a registry of embed and
//! project operations keyed by type identity.

use vstd::prelude::*;

use crate::components::{
    Gauge, Panel, GAUGE_LIVE_TYPE, PANEL_LIVE_TYPE,
};
use crate::context::{cx_preserved, lemma_prefix_refl, Cx};
use crate::live_node::LiveId;
use crate::live_traits::{LiveApply, LiveNew, LiveType};

verus! {

/// Identity tag of [`GaugeAction`].
pub const GAUGE_ACTION_LIVE_TYPE: LiveType = 21;

/// Identity tag of [`PanelAction`].
pub const PANEL_ACTION_LIVE_TYPE: LiveType = 22;

/// The closed set of appliable components, erased behind one handle.
#[derive(Clone, Copy, PartialEq, Eq, Structural, Debug)]
pub enum AnyComponent {
    /// A stored [`Gauge`].
    Gauge(Gauge),
    /// A stored [`Panel`].
    Panel(Panel),
}

/// The capability a component type registers to be stored in and cast out
/// of an [`AnyComponent`] handle.  The tag a handle carries is derived
/// from the stored value itself, never supplied by a caller, so it cannot
/// diverge from the value's real type.
pub trait LiveComponent: LiveNew {
    /// The handle that stores this value.
    spec fn to_any_spec(self) -> AnyComponent;

    /// The value this handle stores, if it stores this type.
    spec fn of_any_spec(a: AnyComponent) -> Option<Self>;

    /// Erases this value behind the common handle.
    fn to_any(self) -> (a: AnyComponent)
        ensures
            a == self.to_any_spec(),
            a.type_id_spec() == Self::type_id_spec(),
            Self::of_any_spec(a) == Option::Some(self),
    ;

    /// Projects the stored value out of a handle of this type.
    fn from_any(a: &AnyComponent) -> (r: Option<&Self>)
        ensures
            match r {
                Option::Some(v) => Self::of_any_spec(*a) == Option::Some(*v),
                Option::None => Self::of_any_spec(*a) is None,
            },
            r is Some <==> a.type_id_spec() == Self::type_id_spec(),
    ;

    /// Projects the stored value out mutably, failing closed: on a match
    /// the reference hands out the stored value and the handle keeps
    /// carrying whatever the caller leaves behind it; on a mismatch the
    /// handle is untouched.
    fn from_any_mut(a: &mut AnyComponent) -> (r: Option<&mut Self>)
        ensures
            match r {
                Option::Some(v) => {
                    &&& old(a).type_id_spec() == Self::type_id_spec()
                    &&& Self::of_any_spec(*old(a)) == Option::Some(*v)
                    &&& *final(a) == (*final(v)).to_any_spec()
                },
                Option::None => {
                    &&& old(a).type_id_spec() != Self::type_id_spec()
                    &&& *final(a) == *old(a)
                },
            },
    ;
}

impl AnyComponent {
    /// The tag of the stored variant.
    pub open spec fn type_id_spec(self) -> LiveType {
        match self {
            AnyComponent::Gauge(_) => GAUGE_LIVE_TYPE,
            AnyComponent::Panel(_) => PANEL_LIVE_TYPE,
        }
    }

    /// The identity tag of the stored component.
    pub fn type_id(&self) -> (t: LiveType)
        ensures
            t == self.type_id_spec(),
    {
        match self {
            AnyComponent::Gauge(_) => GAUGE_LIVE_TYPE,
            AnyComponent::Panel(_) => PANEL_LIVE_TYPE,
        }
    }

    /// Whether the handle stores a value of type `T`.
    pub fn is<T: LiveComponent>(&self) -> (r: bool)
        ensures
            r == (self.type_id_spec() == T::type_id_spec()),
    {
        T::live_type() == self.type_id()
    }

    /// Downcasts by shared reference; fails closed with `None` on a
    /// mismatched type.
    pub fn cast<T: LiveComponent>(&self) -> (r: Option<&T>)
        ensures
            match r {
                Option::Some(v) => T::of_any_spec(*self) == Option::Some(*v),
                Option::None => T::of_any_spec(*self) is None,
            },
            r is Some <==> self.type_id_spec() == T::type_id_spec(),
    {
        T::from_any(self)
    }

    /// Downcasts by mutable reference; fails closed with `None` on a
    /// mismatched type.  On a match the reference starts at the stored
    /// value, and the handle ends up carrying whatever the caller leaves
    /// behind it; on a mismatch the handle is untouched.
    pub fn cast_mut<T: LiveComponent>(&mut self) -> (r: Option<&mut T>)
        ensures
            match r {
                Option::Some(v) => {
                    &&& old(self).type_id_spec() == T::type_id_spec()
                    &&& T::of_any_spec(*old(self)) == Option::Some(*v)
                    &&& *final(self) == (*final(v)).to_any_spec()
                },
                Option::None => {
                    &&& old(self).type_id_spec() != T::type_id_spec()
                    &&& *final(self) == *old(self)
                },
            },
    {
        T::from_any_mut(self)
    }
}

impl LiveComponent for Gauge {
    open spec fn to_any_spec(self) -> AnyComponent {
        AnyComponent::Gauge(self)
    }

    open spec fn of_any_spec(a: AnyComponent) -> Option<Gauge> {
        match a {
            AnyComponent::Gauge(g) => Option::Some(g),
            _ => Option::None,
        }
    }

    fn to_any(self) -> (a: AnyComponent) {
        AnyComponent::Gauge(self)
    }

    fn from_any(a: &AnyComponent) -> (r: Option<&Gauge>) {
        match a {
            AnyComponent::Gauge(g) => Some(g),
            _ => None,
        }
    }

    fn from_any_mut(a: &mut AnyComponent) -> (r: Option<&mut Gauge>) {
        match a {
            AnyComponent::Gauge(g) => Some(g),
            _ => None,
        }
    }
}

impl LiveComponent for Panel {
    open spec fn to_any_spec(self) -> AnyComponent {
        AnyComponent::Panel(self)
    }

    open spec fn of_any_spec(a: AnyComponent) -> Option<Panel> {
        match a {
            AnyComponent::Panel(p) => Option::Some(p),
            _ => Option::None,
        }
    }

    fn to_any(self) -> (a: AnyComponent) {
        AnyComponent::Panel(self)
    }

    fn from_any(a: &AnyComponent) -> (r: Option<&Panel>) {
        match a {
            AnyComponent::Panel(p) => Some(p),
            _ => None,
        }
    }

    fn from_any_mut(a: &mut AnyComponent) -> (r: Option<&mut Panel>) {
        match a {
            AnyComponent::Panel(p) => Some(p),
            _ => None,
        }
    }
}

/// Law: object-cast soundness over the closed component set.  A handle
/// built from a value of one type answers `is` positively exactly for that
/// type, projects back to the identical value, and fails closed for the
/// other registered type.
pub proof fn lemma_object_cast_soundness(g: Gauge, p: Panel)
    ensures
        g.to_any_spec().type_id_spec() == Gauge::type_id_spec(),
        g.to_any_spec().type_id_spec() != Panel::type_id_spec(),
        Gauge::of_any_spec(g.to_any_spec()) == Option::Some(g),
        Panel::of_any_spec(g.to_any_spec()) is None,
        p.to_any_spec().type_id_spec() == Panel::type_id_spec(),
        p.to_any_spec().type_id_spec() != Gauge::type_id_spec(),
        Panel::of_any_spec(p.to_any_spec()) == Option::Some(p),
        Gauge::of_any_spec(p.to_any_spec()) is None,
{
}

/// Law: over the registered component set, an optional wrapper's tag never
/// collides with a concrete type's own tag, and distinct inner types give
/// the wrapper distinct tags: the concrete tags leave the wrapper bit
/// clear, and the wrapper sets it.
pub proof fn lemma_wrapper_tag_distinct()
    ensures
        <Option<Gauge> as LiveApply>::type_id_spec() != Gauge::type_id_spec(),
        <Option<Gauge> as LiveApply>::type_id_spec() != Panel::type_id_spec(),
        <Option<Panel> as LiveApply>::type_id_spec() != Panel::type_id_spec(),
        <Option<Panel> as LiveApply>::type_id_spec() != Gauge::type_id_spec(),
        <Option<Gauge> as LiveApply>::type_id_spec() != <Option<Panel> as LiveApply>::type_id_spec(),
{
    assert(11u64 | 0x8000_0000_0000_0000u64 != 11u64) by (bit_vector);
    assert(11u64 | 0x8000_0000_0000_0000u64 != 12u64) by (bit_vector);
    assert(12u64 | 0x8000_0000_0000_0000u64 != 12u64) by (bit_vector);
    assert(12u64 | 0x8000_0000_0000_0000u64 != 11u64) by (bit_vector);
    assert(11u64 | 0x8000_0000_0000_0000u64 != 12u64 | 0x8000_0000_0000_0000u64) by (bit_vector);
}

/// A factory: constructs a component of a fixed registered type behind
/// the erased handle.
pub trait LiveFactory {
    /// The tag of the type this factory constructs.
    spec fn factory_type_spec(&self) -> LiveType;

    /// Constructs a fresh component behind the erased handle.
    fn new_component(&self, cx: &mut Cx) -> (r: AnyComponent)
        ensures
            r.type_id_spec() == self.factory_type_spec(),
            cx_preserved(*old(cx), *final(cx)),
    ;
}

/// Constructs bare [`Gauge`] components.
pub struct GaugeFactory;

impl LiveFactory for GaugeFactory {
    open spec fn factory_type_spec(&self) -> LiveType {
        GAUGE_LIVE_TYPE
    }

    fn new_component(&self, cx: &mut Cx) -> (r: AnyComponent)
        ensures
            r == Gauge::new_spec().to_any_spec(),
            final(cx).errors@ == old(cx).errors@,
            final(cx).registry == old(cx).registry,
    {
        proof {
            lemma_prefix_refl(cx.errors@);
        }
        Gauge::new(cx).to_any()
    }
}

/// Constructs bare [`Panel`] components.
pub struct PanelFactory;

impl LiveFactory for PanelFactory {
    open spec fn factory_type_spec(&self) -> LiveType {
        PANEL_LIVE_TYPE
    }

    fn new_component(&self, cx: &mut Cx) -> (r: AnyComponent)
        ensures
            r == Panel::new_spec().to_any_spec(),
            final(cx).errors@ == old(cx).errors@,
            final(cx).registry == old(cx).registry,
    {
        proof {
            lemma_prefix_refl(cx.errors@);
        }
        Panel::new(cx).to_any()
    }
}

/// An action a [`Gauge`] announces during event handling.
#[derive(Clone, Copy, PartialEq, Eq, Structural, Debug)]
pub enum GaugeAction {
    /// Nothing happened; the inert default.
    Idle,
    /// The gauge's value changed to the payload.
    Changed(i64),
}

impl Default for GaugeAction {
    /// The inert value a mismatched action cast degrades to.
    fn default() -> (r: GaugeAction)
        ensures
            r == GaugeAction::Idle,
    {
        GaugeAction::Idle
    }
}

/// An action a [`Panel`] announces during event handling.
#[derive(Clone, Copy, PartialEq, Eq, Structural, Debug)]
pub enum PanelAction {
    /// Nothing happened; the inert default.
    Idle,
    /// The panel was pressed.
    Pressed,
}

impl Default for PanelAction {
    /// The inert value a mismatched action cast degrades to.
    fn default() -> (r: PanelAction)
        ensures
            r == PanelAction::Idle,
    {
        PanelAction::Idle
    }
}

/// The closed set of user actions, erased behind one cloneable handle.
#[derive(Clone, Copy, PartialEq, Eq, Structural, Debug)]
pub enum AnyAction {
    /// A stored [`GaugeAction`].
    Gauge(GaugeAction),
    /// A stored [`PanelAction`].
    Panel(PanelAction),
}

/// An optional erased action, the usual shape of an event handler's
/// answer.
pub type OptionAnyAction = Option<AnyAction>;

/// The capability an action type registers to be stored in and cast out
/// of an [`AnyAction`] handle.  Actions are copied, never borrowed, so a
/// handle can be cloned and dispatched freely.
pub trait LiveAction: Sized + Copy {
    /// The identity tag of this action type.
    spec fn action_type_spec() -> LiveType;

    /// The inert value a mismatched cast degrades to.
    spec fn default_spec() -> Self;

    /// The handle that stores this value.
    spec fn to_any_spec(self) -> AnyAction;

    /// The value this handle stores, if it stores this type.
    spec fn of_any_spec(a: AnyAction) -> Option<Self>;

    /// The identity tag of this action type.
    fn live_type() -> (t: LiveType)
        ensures
            t == Self::action_type_spec(),
    ;

    /// The inert default value.
    fn action_default() -> (r: Self)
        ensures
            r == Self::default_spec(),
    ;

    /// Erases this action behind the common handle.
    fn to_any(self) -> (a: AnyAction)
        ensures
            a == self.to_any_spec(),
            a.type_id_spec() == Self::action_type_spec(),
            Self::of_any_spec(a) == Option::Some(self),
    ;

    /// Projects the stored action out of a handle of this type.
    fn from_any(a: &AnyAction) -> (r: Option<Self>)
        ensures
            r == Self::of_any_spec(*a),
            r is Some <==> a.type_id_spec() == Self::action_type_spec(),
    ;
}

impl AnyAction {
    /// The tag of the stored variant.
    pub open spec fn type_id_spec(self) -> LiveType {
        match self {
            AnyAction::Gauge(_) => GAUGE_ACTION_LIVE_TYPE,
            AnyAction::Panel(_) => PANEL_ACTION_LIVE_TYPE,
        }
    }

    /// The identity tag of the stored action.
    pub fn type_id(&self) -> (t: LiveType)
        ensures
            t == self.type_id_spec(),
    {
        match self {
            AnyAction::Gauge(_) => GAUGE_ACTION_LIVE_TYPE,
            AnyAction::Panel(_) => PANEL_ACTION_LIVE_TYPE,
        }
    }

    /// Whether the handle stores an action of type `T`.
    pub fn is<T: LiveAction>(&self) -> (r: bool)
        ensures
            r == (self.type_id_spec() == T::action_type_spec()),
    {
        T::live_type() == self.type_id()
    }

    /// Downcasts by value; fails open with `T`'s default on a mismatched
    /// type, so dispatch tables can probe without error checking.
    pub fn cast<T: LiveAction>(&self) -> (r: T)
        ensures
            self.type_id_spec() == T::action_type_spec() ==> T::of_any_spec(*self)
                == Option::Some(r),
            self.type_id_spec() != T::action_type_spec() ==> r == T::default_spec(),
    {
        match T::from_any(self) {
            Some(v) => v,
            None => T::action_default(),
        }
    }

    /// Downcasts as [`AnyAction::cast`] does, threading a correlation
    /// identifier through unchanged for keyed handler tables.
    pub fn cast_id<T: LiveAction>(&self, id: LiveId) -> (r: (LiveId, T))
        ensures
            r.0 == id,
            self.type_id_spec() == T::action_type_spec() ==> T::of_any_spec(*self)
                == Option::Some(r.1),
            self.type_id_spec() != T::action_type_spec() ==> r.1 == T::default_spec(),
    {
        (id, self.cast::<T>())
    }

    /// A fresh handle holding a copy of the stored action.
    pub fn box_clone(&self) -> (r: AnyAction)
        ensures
            r == *self,
    {
        *self
    }
}

impl LiveAction for GaugeAction {
    open spec fn action_type_spec() -> LiveType {
        GAUGE_ACTION_LIVE_TYPE
    }

    open spec fn default_spec() -> GaugeAction {
        GaugeAction::Idle
    }

    open spec fn to_any_spec(self) -> AnyAction {
        AnyAction::Gauge(self)
    }

    open spec fn of_any_spec(a: AnyAction) -> Option<GaugeAction> {
        match a {
            AnyAction::Gauge(g) => Option::Some(g),
            _ => Option::None,
        }
    }

    fn live_type() -> (t: LiveType) {
        GAUGE_ACTION_LIVE_TYPE
    }

    fn action_default() -> (r: GaugeAction) {
        GaugeAction::Idle
    }

    fn to_any(self) -> (a: AnyAction) {
        AnyAction::Gauge(self)
    }

    fn from_any(a: &AnyAction) -> (r: Option<GaugeAction>) {
        match a {
            AnyAction::Gauge(g) => Some(*g),
            _ => None,
        }
    }
}

impl LiveAction for PanelAction {
    open spec fn action_type_spec() -> LiveType {
        PANEL_ACTION_LIVE_TYPE
    }

    open spec fn default_spec() -> PanelAction {
        PanelAction::Idle
    }

    open spec fn to_any_spec(self) -> AnyAction {
        AnyAction::Panel(self)
    }

    open spec fn of_any_spec(a: AnyAction) -> Option<PanelAction> {
        match a {
            AnyAction::Panel(p) => Option::Some(p),
            _ => Option::None,
        }
    }

    fn live_type() -> (t: LiveType) {
        PANEL_ACTION_LIVE_TYPE
    }

    fn action_default() -> (r: PanelAction) {
        PanelAction::Idle
    }

    fn to_any(self) -> (a: AnyAction) {
        AnyAction::Panel(self)
    }

    fn from_any(a: &AnyAction) -> (r: Option<PanelAction>) {
        match a {
            AnyAction::Panel(p) => Some(*p),
            _ => None,
        }
    }
}

/// Law: action-cast safe degrade.  A handle built from one action type
/// answers a mismatched probe with the probed type's inert default, and
/// the handle itself is untouched by any probe (casts take the handle by
/// shared reference and copy out).
pub proof fn lemma_action_cast_safe_degrade(g: GaugeAction, p: PanelAction)
    ensures
        g.to_any_spec().type_id_spec() != PanelAction::action_type_spec(),
        PanelAction::of_any_spec(g.to_any_spec()) is None,
        p.to_any_spec().type_id_spec() != GaugeAction::action_type_spec(),
        GaugeAction::of_any_spec(p.to_any_spec()) is None,
        GaugeAction::of_any_spec(g.to_any_spec()) == Option::Some(g),
        PanelAction::of_any_spec(p.to_any_spec()) == Option::Some(p),
{
}

} // verus!
