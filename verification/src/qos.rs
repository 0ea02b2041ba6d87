//! Quality-of-service classes and their raw values.
use vstd::prelude::*;

use core::cmp::Ordering;
use vstd::std_specs::cmp::{PartialOrdSpec, PartialOrdSpecImpl};

use crate::ffi::{
    dispatch_qos_class_t, QOS_CLASS_BACKGROUND, QOS_CLASS_DEFAULT, QOS_CLASS_UNSPECIFIED,
    QOS_CLASS_USER_INITIATED, QOS_CLASS_USER_INTERACTIVE, QOS_CLASS_UTILITY,
};

verus! {

/// An abstract thread quality of service (QOS) classification.
#[derive(Clone, Copy, Debug, PartialEq, Eq, Structural)]
pub enum QosClass {
    /// A QOS class which indicates work performed by this thread is interactive with the user.
    UserInteractive,
    /// A QOS class which indicates work performed by this thread was initiated by the user
    /// and that the user is likely waiting for the results.
    UserInitiated,
    /// A default QOS class used by the system in cases where more specific QOS class information is not available.
    Default,
    /// A QOS class which indicates work performed by this thread may or may not be initiated by the user
    /// and that the user is unlikely to be immediately waiting for the results.
    Utility,
    /// A QOS class which indicates work performed by this thread was not initiated by the user
    /// and that the user may be unaware of the results.
    Background,
    /// A QOS class value which indicates the absence or removal of QOS class information.
    Unspecified,
}

impl QosClass {
    /// The value that libdispatch uses for the class.
    pub open spec fn raw_spec(self) -> dispatch_qos_class_t {
        match self {
            QosClass::UserInteractive => QOS_CLASS_USER_INTERACTIVE,
            QosClass::UserInitiated => QOS_CLASS_USER_INITIATED,
            QosClass::Default => QOS_CLASS_DEFAULT,
            QosClass::Utility => QOS_CLASS_UTILITY,
            QosClass::Background => QOS_CLASS_BACKGROUND,
            QosClass::Unspecified => QOS_CLASS_UNSPECIFIED,
        }
    }

    /// Whether `v` is the raw value of some class.
    pub open spec fn is_raw(v: dispatch_qos_class_t) -> bool {
        ||| v == QOS_CLASS_USER_INTERACTIVE
        ||| v == QOS_CLASS_USER_INITIATED
        ||| v == QOS_CLASS_DEFAULT
        ||| v == QOS_CLASS_UTILITY
        ||| v == QOS_CLASS_BACKGROUND
        ||| v == QOS_CLASS_UNSPECIFIED
    }

    /// Returns the value that libdispatch uses for the class.
    pub fn raw(self) -> (r: dispatch_qos_class_t)
        ensures
            r == self.raw_spec(),
    {
        match self {
            QosClass::UserInteractive => QOS_CLASS_USER_INTERACTIVE,
            QosClass::UserInitiated => QOS_CLASS_USER_INITIATED,
            QosClass::Default => QOS_CLASS_DEFAULT,
            QosClass::Utility => QOS_CLASS_UTILITY,
            QosClass::Background => QOS_CLASS_BACKGROUND,
            QosClass::Unspecified => QOS_CLASS_UNSPECIFIED,
        }
    }

    /// Tests whether `v` is the raw value of some class.
    pub fn is_known(v: dispatch_qos_class_t) -> (r: bool)
        ensures
            r == Self::is_raw(v),
    {
        v == QOS_CLASS_USER_INTERACTIVE || v == QOS_CLASS_USER_INITIATED || v == QOS_CLASS_DEFAULT
            || v == QOS_CLASS_UTILITY || v == QOS_CLASS_BACKGROUND || v == QOS_CLASS_UNSPECIFIED
    }

    /// Returns the class whose raw value is `v`.
    pub fn from_raw(v: dispatch_qos_class_t) -> (r: Self)
        requires
            Self::is_raw(v),
        ensures
            r.raw_spec() == v,
    {
        if v == QOS_CLASS_USER_INTERACTIVE {
            QosClass::UserInteractive
        } else if v == QOS_CLASS_USER_INITIATED {
            QosClass::UserInitiated
        } else if v == QOS_CLASS_DEFAULT {
            QosClass::Default
        } else if v == QOS_CLASS_UTILITY {
            QosClass::Utility
        } else if v == QOS_CLASS_BACKGROUND {
            QosClass::Background
        } else {
            QosClass::Unspecified
        }
    }
}

/// Each class has a raw value of its own, and a class is found again from its
/// raw value: the raw values name the classes one to one.
pub proof fn law_raw_names_one_class(a: QosClass, b: QosClass)
    ensures
        QosClass::is_raw(a.raw_spec()),
        a.raw_spec() == b.raw_spec() <==> a == b,
{
}

impl Default for QosClass {
    fn default() -> (r: Self)
        ensures
            r == QosClass::Default,
    {
        QosClass::Default
    }
}

impl PartialOrd for QosClass {
    fn partial_cmp(&self, other: &Self) -> (r: Option<Ordering>) {
        let a = self.raw();
        let b = other.raw();
        if a < b {
            Some(Ordering::Less)
        } else if a == b {
            Some(Ordering::Equal)
        } else {
            Some(Ordering::Greater)
        }
    }
}

impl PartialOrdSpecImpl for QosClass {
    open spec fn obeys_partial_cmp_spec() -> bool {
        true
    }

    open spec fn partial_cmp_spec(&self, other: &Self) -> Option<Ordering> {
        let a = self.raw_spec();
        let b = other.raw_spec();
        if a < b {
            Some(Ordering::Less)
        } else if a == b {
            Some(Ordering::Equal)
        } else {
            Some(Ordering::Greater)
        }
    }
}

/// The classes are totally ordered by their raw values: any two compare, `a`
/// is below `b` exactly when `b` is above `a`, and they compare equal only
/// when they are the same class.
pub proof fn law_order_is_total(a: QosClass, b: QosClass)
    ensures
        PartialOrdSpec::partial_cmp_spec(&a, &b) is Some,
        PartialOrdSpec::partial_cmp_spec(&a, &b) == Some(Ordering::Less)
            <==> PartialOrdSpec::partial_cmp_spec(&b, &a) == Some(Ordering::Greater),
        PartialOrdSpec::partial_cmp_spec(&a, &b) == Some(Ordering::Equal) <==> a == b,
        PartialOrdSpec::partial_cmp_spec(&a, &b) == Some(Ordering::Less) <==> a.raw_spec()
            < b.raw_spec(),
{
}

} // verus!
