//! Values that request payloads are made of: package identifiers, service
//! groups and binds, and the enumerations of install source, topology and
//! update strategy.

use crate::codec::CtlMessage;
use vstd::prelude::*;

verus! {

/// The characters of an optional string field, empty when it is unset.
pub open spec fn text_of(o: Option<String>) -> Seq<char> {
    match o {
        Some(s) => s@,
        None => Seq::<char>::empty(),
    }
}

/// An application and one of its environments.
#[derive(Clone, Debug, PartialEq, Eq)]
pub struct ApplicationEnvironment {
    pub application: Option<String>,
    pub environment: Option<String>,
}

impl ApplicationEnvironment {
    /// No field is set.
    pub open spec fn has_no_fields(&self) -> bool {
        &&& self.application is None
        &&& self.environment is None
    }

    pub fn new() -> (r: ApplicationEnvironment)
        ensures
            r.has_no_fields(),
    {
        ApplicationEnvironment { application: None, environment: None }
    }

    pub fn clear_application(&mut self)
        ensures
            *final(self) == (ApplicationEnvironment { application: None, ..*old(self) }),
    {
        self.application = None;
    }

    pub fn has_application(&self) -> (r: bool)
        ensures
            r == self.application is Some,
    {
        self.application.is_some()
    }

    pub fn set_application(&mut self, v: String)
        ensures
            *final(self) == (ApplicationEnvironment { application: Some(v), ..*old(self) }),
    {
        self.application = Some(v);
    }

    /// The field's string, set to the empty string first when unset.
    pub fn mut_application(&mut self) -> (r: &mut String)
        ensures
            (*r)@ == text_of(old(self).application),
            *final(self) == (ApplicationEnvironment { application: Some(*final(r)), ..*old(self) }),
    {
        self.application.get_or_insert(String::new())
    }

    /// Moves the field's string out, leaving the field unset.
    pub fn take_application(&mut self) -> (r: String)
        ensures
            r@ == text_of(old(self).application),
            *final(self) == (ApplicationEnvironment { application: None, ..*old(self) }),
    {
        match self.application.take() {
            Some(s) => s,
            None => String::new(),
        }
    }

    /// The field's string, empty when unset.
    pub fn get_application(&self) -> (r: &str)
        ensures
            r@ == text_of(self.application),
    {
        match &self.application {
            Some(s) => s.as_str(),
            None => {
                proof {
                    reveal_strlit("");
                }
                ""
            },
        }
    }

    pub fn clear_environment(&mut self)
        ensures
            *final(self) == (ApplicationEnvironment { environment: None, ..*old(self) }),
    {
        self.environment = None;
    }

    pub fn has_environment(&self) -> (r: bool)
        ensures
            r == self.environment is Some,
    {
        self.environment.is_some()
    }

    pub fn set_environment(&mut self, v: String)
        ensures
            *final(self) == (ApplicationEnvironment { environment: Some(v), ..*old(self) }),
    {
        self.environment = Some(v);
    }

    /// The field's string, set to the empty string first when unset.
    pub fn mut_environment(&mut self) -> (r: &mut String)
        ensures
            (*r)@ == text_of(old(self).environment),
            *final(self) == (ApplicationEnvironment { environment: Some(*final(r)), ..*old(self) }),
    {
        self.environment.get_or_insert(String::new())
    }

    /// Moves the field's string out, leaving the field unset.
    pub fn take_environment(&mut self) -> (r: String)
        ensures
            r@ == text_of(old(self).environment),
            *final(self) == (ApplicationEnvironment { environment: None, ..*old(self) }),
    {
        match self.environment.take() {
            Some(s) => s,
            None => String::new(),
        }
    }

    /// The field's string, empty when unset.
    pub fn get_environment(&self) -> (r: &str)
        ensures
            r@ == text_of(self.environment),
    {
        match &self.environment {
            Some(s) => s.as_str(),
            None => {
                proof {
                    reveal_strlit("");
                }
                ""
            },
        }
    }
}

impl CtlMessage for ApplicationEnvironment {
    open spec fn spec_message_id() -> Seq<char> {
        "ApplicationEnvironment"@
    }

    fn message_id() -> (r: &'static str) {
        "ApplicationEnvironment"
    }

    fn empty() -> (r: ApplicationEnvironment) {
        let r = ApplicationEnvironment::new();
        assert(r.spec_is_empty());
        r
    }

    open spec fn spec_is_empty(&self) -> bool {
        self.has_no_fields()
    }
}

/// A package identifier: origin, name, version and release.
#[derive(Clone, Debug, PartialEq, Eq)]
pub struct PackageIdent {
    pub origin: Option<String>,
    pub name: Option<String>,
    pub version: Option<String>,
    pub release: Option<String>,
}

impl PackageIdent {
    /// No field is set.
    pub open spec fn has_no_fields(&self) -> bool {
        &&& self.origin is None
        &&& self.name is None
        &&& self.version is None
        &&& self.release is None
    }

    pub fn new() -> (r: PackageIdent)
        ensures
            r.has_no_fields(),
    {
        PackageIdent { origin: None, name: None, version: None, release: None }
    }

    pub fn clear_origin(&mut self)
        ensures
            *final(self) == (PackageIdent { origin: None, ..*old(self) }),
    {
        self.origin = None;
    }

    pub fn has_origin(&self) -> (r: bool)
        ensures
            r == self.origin is Some,
    {
        self.origin.is_some()
    }

    pub fn set_origin(&mut self, v: String)
        ensures
            *final(self) == (PackageIdent { origin: Some(v), ..*old(self) }),
    {
        self.origin = Some(v);
    }

    /// The field's string, set to the empty string first when unset.
    pub fn mut_origin(&mut self) -> (r: &mut String)
        ensures
            (*r)@ == text_of(old(self).origin),
            *final(self) == (PackageIdent { origin: Some(*final(r)), ..*old(self) }),
    {
        self.origin.get_or_insert(String::new())
    }

    /// Moves the field's string out, leaving the field unset.
    pub fn take_origin(&mut self) -> (r: String)
        ensures
            r@ == text_of(old(self).origin),
            *final(self) == (PackageIdent { origin: None, ..*old(self) }),
    {
        match self.origin.take() {
            Some(s) => s,
            None => String::new(),
        }
    }

    /// The field's string, empty when unset.
    pub fn get_origin(&self) -> (r: &str)
        ensures
            r@ == text_of(self.origin),
    {
        match &self.origin {
            Some(s) => s.as_str(),
            None => {
                proof {
                    reveal_strlit("");
                }
                ""
            },
        }
    }

    pub fn clear_name(&mut self)
        ensures
            *final(self) == (PackageIdent { name: None, ..*old(self) }),
    {
        self.name = None;
    }

    pub fn has_name(&self) -> (r: bool)
        ensures
            r == self.name is Some,
    {
        self.name.is_some()
    }

    pub fn set_name(&mut self, v: String)
        ensures
            *final(self) == (PackageIdent { name: Some(v), ..*old(self) }),
    {
        self.name = Some(v);
    }

    /// The field's string, set to the empty string first when unset.
    pub fn mut_name(&mut self) -> (r: &mut String)
        ensures
            (*r)@ == text_of(old(self).name),
            *final(self) == (PackageIdent { name: Some(*final(r)), ..*old(self) }),
    {
        self.name.get_or_insert(String::new())
    }

    /// Moves the field's string out, leaving the field unset.
    pub fn take_name(&mut self) -> (r: String)
        ensures
            r@ == text_of(old(self).name),
            *final(self) == (PackageIdent { name: None, ..*old(self) }),
    {
        match self.name.take() {
            Some(s) => s,
            None => String::new(),
        }
    }

    /// The field's string, empty when unset.
    pub fn get_name(&self) -> (r: &str)
        ensures
            r@ == text_of(self.name),
    {
        match &self.name {
            Some(s) => s.as_str(),
            None => {
                proof {
                    reveal_strlit("");
                }
                ""
            },
        }
    }

    pub fn clear_version(&mut self)
        ensures
            *final(self) == (PackageIdent { version: None, ..*old(self) }),
    {
        self.version = None;
    }

    pub fn has_version(&self) -> (r: bool)
        ensures
            r == self.version is Some,
    {
        self.version.is_some()
    }

    pub fn set_version(&mut self, v: String)
        ensures
            *final(self) == (PackageIdent { version: Some(v), ..*old(self) }),
    {
        self.version = Some(v);
    }

    /// The field's string, set to the empty string first when unset.
    pub fn mut_version(&mut self) -> (r: &mut String)
        ensures
            (*r)@ == text_of(old(self).version),
            *final(self) == (PackageIdent { version: Some(*final(r)), ..*old(self) }),
    {
        self.version.get_or_insert(String::new())
    }

    /// Moves the field's string out, leaving the field unset.
    pub fn take_version(&mut self) -> (r: String)
        ensures
            r@ == text_of(old(self).version),
            *final(self) == (PackageIdent { version: None, ..*old(self) }),
    {
        match self.version.take() {
            Some(s) => s,
            None => String::new(),
        }
    }

    /// The field's string, empty when unset.
    pub fn get_version(&self) -> (r: &str)
        ensures
            r@ == text_of(self.version),
    {
        match &self.version {
            Some(s) => s.as_str(),
            None => {
                proof {
                    reveal_strlit("");
                }
                ""
            },
        }
    }

    pub fn clear_release(&mut self)
        ensures
            *final(self) == (PackageIdent { release: None, ..*old(self) }),
    {
        self.release = None;
    }

    pub fn has_release(&self) -> (r: bool)
        ensures
            r == self.release is Some,
    {
        self.release.is_some()
    }

    pub fn set_release(&mut self, v: String)
        ensures
            *final(self) == (PackageIdent { release: Some(v), ..*old(self) }),
    {
        self.release = Some(v);
    }

    /// The field's string, set to the empty string first when unset.
    pub fn mut_release(&mut self) -> (r: &mut String)
        ensures
            (*r)@ == text_of(old(self).release),
            *final(self) == (PackageIdent { release: Some(*final(r)), ..*old(self) }),
    {
        self.release.get_or_insert(String::new())
    }

    /// Moves the field's string out, leaving the field unset.
    pub fn take_release(&mut self) -> (r: String)
        ensures
            r@ == text_of(old(self).release),
            *final(self) == (PackageIdent { release: None, ..*old(self) }),
    {
        match self.release.take() {
            Some(s) => s,
            None => String::new(),
        }
    }

    /// The field's string, empty when unset.
    pub fn get_release(&self) -> (r: &str)
        ensures
            r@ == text_of(self.release),
    {
        match &self.release {
            Some(s) => s.as_str(),
            None => {
                proof {
                    reveal_strlit("");
                }
                ""
            },
        }
    }
}

impl CtlMessage for PackageIdent {
    open spec fn spec_message_id() -> Seq<char> {
        "PackageIdent"@
    }

    fn message_id() -> (r: &'static str) {
        "PackageIdent"
    }

    fn empty() -> (r: PackageIdent) {
        let r = PackageIdent::new();
        assert(r.spec_is_empty());
        r
    }

    open spec fn spec_is_empty(&self) -> bool {
        self.has_no_fields()
    }
}

/// A bind of a service to a service group, under a name.
#[derive(Clone, Debug, PartialEq, Eq)]
pub struct ServiceBind {
    pub name: Option<String>,
    pub service_group: Option<ServiceGroup>,
}

impl ServiceBind {
    /// No field is set.
    pub open spec fn has_no_fields(&self) -> bool {
        &&& self.name is None
        &&& self.service_group is None
    }

    pub fn new() -> (r: ServiceBind)
        ensures
            r.has_no_fields(),
    {
        ServiceBind { name: None, service_group: None }
    }

    pub fn clear_name(&mut self)
        ensures
            *final(self) == (ServiceBind { name: None, ..*old(self) }),
    {
        self.name = None;
    }

    pub fn has_name(&self) -> (r: bool)
        ensures
            r == self.name is Some,
    {
        self.name.is_some()
    }

    pub fn set_name(&mut self, v: String)
        ensures
            *final(self) == (ServiceBind { name: Some(v), ..*old(self) }),
    {
        self.name = Some(v);
    }

    /// The field's string, set to the empty string first when unset.
    pub fn mut_name(&mut self) -> (r: &mut String)
        ensures
            (*r)@ == text_of(old(self).name),
            *final(self) == (ServiceBind { name: Some(*final(r)), ..*old(self) }),
    {
        self.name.get_or_insert(String::new())
    }

    /// Moves the field's string out, leaving the field unset.
    pub fn take_name(&mut self) -> (r: String)
        ensures
            r@ == text_of(old(self).name),
            *final(self) == (ServiceBind { name: None, ..*old(self) }),
    {
        match self.name.take() {
            Some(s) => s,
            None => String::new(),
        }
    }

    /// The field's string, empty when unset.
    pub fn get_name(&self) -> (r: &str)
        ensures
            r@ == text_of(self.name),
    {
        match &self.name {
            Some(s) => s.as_str(),
            None => {
                proof {
                    reveal_strlit("");
                }
                ""
            },
        }
    }

    pub fn clear_service_group(&mut self)
        ensures
            *final(self) == (ServiceBind { service_group: None, ..*old(self) }),
    {
        self.service_group = None;
    }

    pub fn has_service_group(&self) -> (r: bool)
        ensures
            r == self.service_group is Some,
    {
        self.service_group.is_some()
    }

    pub fn set_service_group(&mut self, v: ServiceGroup)
        ensures
            *final(self) == (ServiceBind { service_group: Some(v), ..*old(self) }),
    {
        self.service_group = Some(v);
    }

    /// The field's message, set to an empty one first when unset.
    pub fn mut_service_group(&mut self) -> (r: &mut ServiceGroup)
        ensures
            old(self).service_group matches Some(v) ==> *r == v,
            old(self).service_group is None ==> r.has_no_fields(),
            *final(self) == (ServiceBind { service_group: Some(*final(r)), ..*old(self) }),
    {
        self.service_group.get_or_insert(ServiceGroup::new())
    }

    /// Moves the field's message out, leaving the field unset.
    pub fn take_service_group(&mut self) -> (r: ServiceGroup)
        ensures
            old(self).service_group matches Some(v) ==> r == v,
            old(self).service_group is None ==> r.has_no_fields(),
            *final(self) == (ServiceBind { service_group: None, ..*old(self) }),
    {
        match self.service_group.take() {
            Some(v) => v,
            None => ServiceGroup::new(),
        }
    }

    /// The field's message, `None` when unset.
    pub fn get_service_group(&self) -> (r: Option<&ServiceGroup>)
        ensures
            match r {
                Some(v) => self.service_group == Some(*v),
                None => self.service_group is None,
            },
    {
        self.service_group.as_ref()
    }
}

impl CtlMessage for ServiceBind {
    open spec fn spec_message_id() -> Seq<char> {
        "ServiceBind"@
    }

    fn message_id() -> (r: &'static str) {
        "ServiceBind"
    }

    fn empty() -> (r: ServiceBind) {
        let r = ServiceBind::new();
        assert(r.spec_is_empty());
        r
    }

    open spec fn spec_is_empty(&self) -> bool {
        self.has_no_fields()
    }
}

/// A service group: service, group, application environment and organization.
#[derive(Clone, Debug, PartialEq, Eq)]
pub struct ServiceGroup {
    pub service: Option<String>,
    pub group: Option<String>,
    pub application_environment: Option<ApplicationEnvironment>,
    pub organization: Option<String>,
}

impl ServiceGroup {
    /// No field is set.
    pub open spec fn has_no_fields(&self) -> bool {
        &&& self.service is None
        &&& self.group is None
        &&& self.application_environment is None
        &&& self.organization is None
    }

    pub fn new() -> (r: ServiceGroup)
        ensures
            r.has_no_fields(),
    {
        ServiceGroup { service: None, group: None, application_environment: None, organization: None }
    }

    pub fn clear_service(&mut self)
        ensures
            *final(self) == (ServiceGroup { service: None, ..*old(self) }),
    {
        self.service = None;
    }

    pub fn has_service(&self) -> (r: bool)
        ensures
            r == self.service is Some,
    {
        self.service.is_some()
    }

    pub fn set_service(&mut self, v: String)
        ensures
            *final(self) == (ServiceGroup { service: Some(v), ..*old(self) }),
    {
        self.service = Some(v);
    }

    /// The field's string, set to the empty string first when unset.
    pub fn mut_service(&mut self) -> (r: &mut String)
        ensures
            (*r)@ == text_of(old(self).service),
            *final(self) == (ServiceGroup { service: Some(*final(r)), ..*old(self) }),
    {
        self.service.get_or_insert(String::new())
    }

    /// Moves the field's string out, leaving the field unset.
    pub fn take_service(&mut self) -> (r: String)
        ensures
            r@ == text_of(old(self).service),
            *final(self) == (ServiceGroup { service: None, ..*old(self) }),
    {
        match self.service.take() {
            Some(s) => s,
            None => String::new(),
        }
    }

    /// The field's string, empty when unset.
    pub fn get_service(&self) -> (r: &str)
        ensures
            r@ == text_of(self.service),
    {
        match &self.service {
            Some(s) => s.as_str(),
            None => {
                proof {
                    reveal_strlit("");
                }
                ""
            },
        }
    }

    pub fn clear_group(&mut self)
        ensures
            *final(self) == (ServiceGroup { group: None, ..*old(self) }),
    {
        self.group = None;
    }

    pub fn has_group(&self) -> (r: bool)
        ensures
            r == self.group is Some,
    {
        self.group.is_some()
    }

    pub fn set_group(&mut self, v: String)
        ensures
            *final(self) == (ServiceGroup { group: Some(v), ..*old(self) }),
    {
        self.group = Some(v);
    }

    /// The field's string, set to the empty string first when unset.
    pub fn mut_group(&mut self) -> (r: &mut String)
        ensures
            (*r)@ == text_of(old(self).group),
            *final(self) == (ServiceGroup { group: Some(*final(r)), ..*old(self) }),
    {
        self.group.get_or_insert(String::new())
    }

    /// Moves the field's string out, leaving the field unset.
    pub fn take_group(&mut self) -> (r: String)
        ensures
            r@ == text_of(old(self).group),
            *final(self) == (ServiceGroup { group: None, ..*old(self) }),
    {
        match self.group.take() {
            Some(s) => s,
            None => String::new(),
        }
    }

    /// The field's string, empty when unset.
    pub fn get_group(&self) -> (r: &str)
        ensures
            r@ == text_of(self.group),
    {
        match &self.group {
            Some(s) => s.as_str(),
            None => {
                proof {
                    reveal_strlit("");
                }
                ""
            },
        }
    }

    pub fn clear_application_environment(&mut self)
        ensures
            *final(self) == (ServiceGroup { application_environment: None, ..*old(self) }),
    {
        self.application_environment = None;
    }

    pub fn has_application_environment(&self) -> (r: bool)
        ensures
            r == self.application_environment is Some,
    {
        self.application_environment.is_some()
    }

    pub fn set_application_environment(&mut self, v: ApplicationEnvironment)
        ensures
            *final(self) == (ServiceGroup { application_environment: Some(v), ..*old(self) }),
    {
        self.application_environment = Some(v);
    }

    /// The field's message, set to an empty one first when unset.
    pub fn mut_application_environment(&mut self) -> (r: &mut ApplicationEnvironment)
        ensures
            old(self).application_environment matches Some(v) ==> *r == v,
            old(self).application_environment is None ==> r.has_no_fields(),
            *final(self) == (ServiceGroup { application_environment: Some(*final(r)), ..*old(self) }),
    {
        self.application_environment.get_or_insert(ApplicationEnvironment::new())
    }

    /// Moves the field's message out, leaving the field unset.
    pub fn take_application_environment(&mut self) -> (r: ApplicationEnvironment)
        ensures
            old(self).application_environment matches Some(v) ==> r == v,
            old(self).application_environment is None ==> r.has_no_fields(),
            *final(self) == (ServiceGroup { application_environment: None, ..*old(self) }),
    {
        match self.application_environment.take() {
            Some(v) => v,
            None => ApplicationEnvironment::new(),
        }
    }

    /// The field's message, `None` when unset.
    pub fn get_application_environment(&self) -> (r: Option<&ApplicationEnvironment>)
        ensures
            match r {
                Some(v) => self.application_environment == Some(*v),
                None => self.application_environment is None,
            },
    {
        self.application_environment.as_ref()
    }

    pub fn clear_organization(&mut self)
        ensures
            *final(self) == (ServiceGroup { organization: None, ..*old(self) }),
    {
        self.organization = None;
    }

    pub fn has_organization(&self) -> (r: bool)
        ensures
            r == self.organization is Some,
    {
        self.organization.is_some()
    }

    pub fn set_organization(&mut self, v: String)
        ensures
            *final(self) == (ServiceGroup { organization: Some(v), ..*old(self) }),
    {
        self.organization = Some(v);
    }

    /// The field's string, set to the empty string first when unset.
    pub fn mut_organization(&mut self) -> (r: &mut String)
        ensures
            (*r)@ == text_of(old(self).organization),
            *final(self) == (ServiceGroup { organization: Some(*final(r)), ..*old(self) }),
    {
        self.organization.get_or_insert(String::new())
    }

    /// Moves the field's string out, leaving the field unset.
    pub fn take_organization(&mut self) -> (r: String)
        ensures
            r@ == text_of(old(self).organization),
            *final(self) == (ServiceGroup { organization: None, ..*old(self) }),
    {
        match self.organization.take() {
            Some(s) => s,
            None => String::new(),
        }
    }

    /// The field's string, empty when unset.
    pub fn get_organization(&self) -> (r: &str)
        ensures
            r@ == text_of(self.organization),
    {
        match &self.organization {
            Some(s) => s.as_str(),
            None => {
                proof {
                    reveal_strlit("");
                }
                ""
            },
        }
    }
}

impl CtlMessage for ServiceGroup {
    open spec fn spec_message_id() -> Seq<char> {
        "ServiceGroup"@
    }

    fn message_id() -> (r: &'static str) {
        "ServiceGroup"
    }

    fn empty() -> (r: ServiceGroup) {
        let r = ServiceGroup::new();
        assert(r.spec_is_empty());
        r
    }

    open spec fn spec_is_empty(&self) -> bool {
        self.has_no_fields()
    }
}

/// Where a package to install comes from.
#[derive(Copy, Clone, Debug, PartialEq, Eq, Structural, Hash)]
pub enum InstallSource {
    Ident,
    Archive,
}

impl InstallSource {
    /// The number that stands for this value on the wire.
    pub open spec fn spec_value(&self) -> i32 {
        match self {
            InstallSource::Ident => 0,
            InstallSource::Archive => 1,
        }
    }

    pub fn value(&self) -> (r: i32)
        ensures
            r == self.spec_value(),
    {
        match self {
            InstallSource::Ident => 0,
            InstallSource::Archive => 1,
        }
    }

    /// The value a wire number stands for, if any.
    pub fn from_i32(v: i32) -> (r: Option<InstallSource>)
        ensures
            match r {
                Some(e) => e.spec_value() == v,
                None => forall|e: InstallSource| e.spec_value() != v,
            },
    {
        match v {
            0 => Some(InstallSource::Ident),
            1 => Some(InstallSource::Archive),
            _ => None,
        }
    }
}

/// How the members of a service group relate.
#[derive(Copy, Clone, Debug, PartialEq, Eq, Structural, Hash)]
pub enum Topology {
    Standalone,
    Leader,
}

impl Topology {
    /// The number that stands for this value on the wire.
    pub open spec fn spec_value(&self) -> i32 {
        match self {
            Topology::Standalone => 0,
            Topology::Leader => 1,
        }
    }

    pub fn value(&self) -> (r: i32)
        ensures
            r == self.spec_value(),
    {
        match self {
            Topology::Standalone => 0,
            Topology::Leader => 1,
        }
    }

    /// The value a wire number stands for, if any.
    pub fn from_i32(v: i32) -> (r: Option<Topology>)
        ensures
            match r {
                Some(e) => e.spec_value() == v,
                None => forall|e: Topology| e.spec_value() != v,
            },
    {
        match v {
            0 => Some(Topology::Standalone),
            1 => Some(Topology::Leader),
            _ => None,
        }
    }
}

/// How a service group takes package updates.
#[derive(Copy, Clone, Debug, PartialEq, Eq, Structural, Hash)]
pub enum UpdateStrategy {
    NoUpdates,
    AtOnce,
    Rolling,
}

impl UpdateStrategy {
    /// The number that stands for this value on the wire.
    pub open spec fn spec_value(&self) -> i32 {
        match self {
            UpdateStrategy::NoUpdates => 0,
            UpdateStrategy::AtOnce => 1,
            UpdateStrategy::Rolling => 2,
        }
    }

    pub fn value(&self) -> (r: i32)
        ensures
            r == self.spec_value(),
    {
        match self {
            UpdateStrategy::NoUpdates => 0,
            UpdateStrategy::AtOnce => 1,
            UpdateStrategy::Rolling => 2,
        }
    }

    /// The value a wire number stands for, if any.
    pub fn from_i32(v: i32) -> (r: Option<UpdateStrategy>)
        ensures
            match r {
                Some(e) => e.spec_value() == v,
                None => forall|e: UpdateStrategy| e.spec_value() != v,
            },
    {
        match v {
            0 => Some(UpdateStrategy::NoUpdates),
            1 => Some(UpdateStrategy::AtOnce),
            2 => Some(UpdateStrategy::Rolling),
            _ => None,
        }
    }
}

} // verus!
