//! Payloads of the control protocol: handshake, replies, progress and console
//! output, and the service requests.

use crate::codec::CtlMessage;
use crate::types::{
    text_of, ApplicationEnvironment, PackageIdent, ServiceBind, Topology, UpdateStrategy,
};
use std::collections::HashMap;
use vstd::prelude::*;

verus! {

/// Reply that a request succeeded.
#[derive(Clone, Debug, PartialEq, Eq)]
pub struct NetOk {}

impl NetOk {
    /// No field is set.
    pub open spec fn has_no_fields(&self) -> bool {
        true
    }

    pub fn new() -> (r: NetOk)
        ensures
            r.has_no_fields(),
    {
        NetOk {}
    }
}

impl CtlMessage for NetOk {
    open spec fn spec_message_id() -> Seq<char> {
        "NetOk"@
    }

    fn message_id() -> (r: &'static str) {
        "NetOk"
    }

    fn empty() -> (r: NetOk) {
        let r = NetOk::new();
        assert(r.spec_is_empty());
        r
    }

    open spec fn spec_is_empty(&self) -> bool {
        self.has_no_fields()
    }
}

/// Reply that a request failed: an error code and a message.
#[derive(Clone, Debug, PartialEq, Eq)]
pub struct NetErr {
    pub code: Option<ErrCode>,
    pub msg: Option<String>,
}

impl NetErr {
    /// No field is set.
    pub open spec fn has_no_fields(&self) -> bool {
        &&& self.code is None
        &&& self.msg is None
    }

    pub fn new() -> (r: NetErr)
        ensures
            r.has_no_fields(),
    {
        NetErr { code: None, msg: None }
    }

    pub fn clear_code(&mut self)
        ensures
            *final(self) == (NetErr { code: None, ..*old(self) }),
    {
        self.code = None;
    }

    pub fn has_code(&self) -> (r: bool)
        ensures
            r == self.code is Some,
    {
        self.code.is_some()
    }

    pub fn set_code(&mut self, v: ErrCode)
        ensures
            *final(self) == (NetErr { code: Some(v), ..*old(self) }),
    {
        self.code = Some(v);
    }

    /// The field's value, `ErrCode::Internal` when unset.
    pub fn get_code(&self) -> (r: ErrCode)
        ensures
            r == match self.code {
                Some(v) => v,
                None => ErrCode::Internal,
            },
    {
        match self.code {
            Some(v) => v,
            None => ErrCode::Internal,
        }
    }

    pub fn clear_msg(&mut self)
        ensures
            *final(self) == (NetErr { msg: None, ..*old(self) }),
    {
        self.msg = None;
    }

    pub fn has_msg(&self) -> (r: bool)
        ensures
            r == self.msg is Some,
    {
        self.msg.is_some()
    }

    pub fn set_msg(&mut self, v: String)
        ensures
            *final(self) == (NetErr { msg: Some(v), ..*old(self) }),
    {
        self.msg = Some(v);
    }

    /// The field's string, set to the empty string first when unset.
    pub fn mut_msg(&mut self) -> (r: &mut String)
        ensures
            (*r)@ == text_of(old(self).msg),
            *final(self) == (NetErr { msg: Some(*final(r)), ..*old(self) }),
    {
        self.msg.get_or_insert(String::new())
    }

    /// Moves the field's string out, leaving the field unset.
    pub fn take_msg(&mut self) -> (r: String)
        ensures
            r@ == text_of(old(self).msg),
            *final(self) == (NetErr { msg: None, ..*old(self) }),
    {
        match self.msg.take() {
            Some(s) => s,
            None => String::new(),
        }
    }

    /// The field's string, empty when unset.
    pub fn get_msg(&self) -> (r: &str)
        ensures
            r@ == text_of(self.msg),
    {
        match &self.msg {
            Some(s) => s.as_str(),
            None => {
                proof {
                    reveal_strlit("");
                }
                ""
            },
        }
    }
}

impl CtlMessage for NetErr {
    open spec fn spec_message_id() -> Seq<char> {
        "NetErr"@
    }

    fn message_id() -> (r: &'static str) {
        "NetErr"
    }

    fn empty() -> (r: NetErr) {
        let r = NetErr::new();
        assert(r.spec_is_empty());
        r
    }

    open spec fn spec_is_empty(&self) -> bool {
        self.has_no_fields()
    }
}

/// Progress of a long operation: a total and the amount just done.
#[derive(Clone, Debug, PartialEq, Eq)]
pub struct NetProgress {
    pub total: Option<u64>,
    pub delta: Option<u64>,
}

impl NetProgress {
    /// No field is set.
    pub open spec fn has_no_fields(&self) -> bool {
        &&& self.total is None
        &&& self.delta is None
    }

    pub fn new() -> (r: NetProgress)
        ensures
            r.has_no_fields(),
    {
        NetProgress { total: None, delta: None }
    }

    pub fn clear_total(&mut self)
        ensures
            *final(self) == (NetProgress { total: None, ..*old(self) }),
    {
        self.total = None;
    }

    pub fn has_total(&self) -> (r: bool)
        ensures
            r == self.total is Some,
    {
        self.total.is_some()
    }

    pub fn set_total(&mut self, v: u64)
        ensures
            *final(self) == (NetProgress { total: Some(v), ..*old(self) }),
    {
        self.total = Some(v);
    }

    /// The field's value, `0` when unset.
    pub fn get_total(&self) -> (r: u64)
        ensures
            r == match self.total {
                Some(v) => v,
                None => 0,
            },
    {
        match self.total {
            Some(v) => v,
            None => 0,
        }
    }

    pub fn clear_delta(&mut self)
        ensures
            *final(self) == (NetProgress { delta: None, ..*old(self) }),
    {
        self.delta = None;
    }

    pub fn has_delta(&self) -> (r: bool)
        ensures
            r == self.delta is Some,
    {
        self.delta.is_some()
    }

    pub fn set_delta(&mut self, v: u64)
        ensures
            *final(self) == (NetProgress { delta: Some(v), ..*old(self) }),
    {
        self.delta = Some(v);
    }

    /// The field's value, `0` when unset.
    pub fn get_delta(&self) -> (r: u64)
        ensures
            r == match self.delta {
                Some(v) => v,
                None => 0,
            },
    {
        match self.delta {
            Some(v) => v,
            None => 0,
        }
    }
}

impl CtlMessage for NetProgress {
    open spec fn spec_message_id() -> Seq<char> {
        "NetProgress"@
    }

    fn message_id() -> (r: &'static str) {
        "NetProgress"
    }

    fn empty() -> (r: NetProgress) {
        let r = NetProgress::new();
        assert(r.spec_is_empty());
        r
    }

    open spec fn spec_is_empty(&self) -> bool {
        self.has_no_fields()
    }
}

/// First request on a connection, carrying the shared secret.
#[derive(Clone, Debug, PartialEq, Eq)]
pub struct Handshake {
    pub auth_key: Option<String>,
}

impl Handshake {
    /// No field is set.
    pub open spec fn has_no_fields(&self) -> bool {
        &&& self.auth_key is None
    }

    pub fn new() -> (r: Handshake)
        ensures
            r.has_no_fields(),
    {
        Handshake { auth_key: None }
    }

    pub fn clear_auth_key(&mut self)
        ensures
            *final(self) == (Handshake { auth_key: None, ..*old(self) }),
    {
        self.auth_key = None;
    }

    pub fn has_auth_key(&self) -> (r: bool)
        ensures
            r == self.auth_key is Some,
    {
        self.auth_key.is_some()
    }

    pub fn set_auth_key(&mut self, v: String)
        ensures
            *final(self) == (Handshake { auth_key: Some(v), ..*old(self) }),
    {
        self.auth_key = Some(v);
    }

    /// The field's string, set to the empty string first when unset.
    pub fn mut_auth_key(&mut self) -> (r: &mut String)
        ensures
            (*r)@ == text_of(old(self).auth_key),
            *final(self) == (Handshake { auth_key: Some(*final(r)), ..*old(self) }),
    {
        self.auth_key.get_or_insert(String::new())
    }

    /// Moves the field's string out, leaving the field unset.
    pub fn take_auth_key(&mut self) -> (r: String)
        ensures
            r@ == text_of(old(self).auth_key),
            *final(self) == (Handshake { auth_key: None, ..*old(self) }),
    {
        match self.auth_key.take() {
            Some(s) => s,
            None => String::new(),
        }
    }

    /// The field's string, empty when unset.
    pub fn get_auth_key(&self) -> (r: &str)
        ensures
            r@ == text_of(self.auth_key),
    {
        match &self.auth_key {
            Some(s) => s.as_str(),
            None => {
                proof {
                    reveal_strlit("");
                }
                ""
            },
        }
    }
}

impl CtlMessage for Handshake {
    open spec fn spec_message_id() -> Seq<char> {
        "Handshake"@
    }

    fn message_id() -> (r: &'static str) {
        "Handshake"
    }

    fn empty() -> (r: Handshake) {
        let r = Handshake::new();
        assert(r.spec_is_empty());
        r
    }

    open spec fn spec_is_empty(&self) -> bool {
        self.has_no_fields()
    }
}

/// A list of service binds.
#[derive(Clone, Debug, PartialEq, Eq)]
pub struct ServiceBindList {
    pub binds: Vec<ServiceBind>,
}

impl ServiceBindList {
    /// No field is set.
    pub open spec fn has_no_fields(&self) -> bool {
        &&& self.binds@.len() == 0
    }

    pub fn new() -> (r: ServiceBindList)
        ensures
            r.has_no_fields(),
    {
        ServiceBindList { binds: Vec::new() }
    }

    pub fn clear_binds(&mut self)
        ensures
            *final(self) == (ServiceBindList { binds: final(self).binds, ..*old(self) }),
            final(self).binds@.len() == 0,
    {
        self.binds = Vec::new();
    }

    pub fn set_binds(&mut self, v: Vec<ServiceBind>)
        ensures
            *final(self) == (ServiceBindList { binds: v, ..*old(self) }),
    {
        self.binds = v;
    }

    pub fn mut_binds(&mut self) -> (r: &mut Vec<ServiceBind>)
        ensures
            *r == old(self).binds,
            *final(self) == (ServiceBindList { binds: *final(r), ..*old(self) }),
    {
        &mut self.binds
    }

    /// Moves the list out, leaving it empty.
    pub fn take_binds(&mut self) -> (r: Vec<ServiceBind>)
        ensures
            r == old(self).binds,
            *final(self) == (ServiceBindList { binds: final(self).binds, ..*old(self) }),
            final(self).binds@.len() == 0,
    {
        let mut out: Vec<ServiceBind> = Vec::new();
        std::mem::swap(&mut self.binds, &mut out);
        out
    }

    pub fn get_binds(&self) -> (r: &[ServiceBind])
        ensures
            r@ == self.binds@,
    {
        self.binds.as_slice()
    }
}

impl CtlMessage for ServiceBindList {
    open spec fn spec_message_id() -> Seq<char> {
        "ServiceBindList"@
    }

    fn message_id() -> (r: &'static str) {
        "ServiceBindList"
    }

    fn empty() -> (r: ServiceBindList) {
        let r = ServiceBindList::new();
        assert(r.spec_is_empty());
        r
    }

    open spec fn spec_is_empty(&self) -> bool {
        self.has_no_fields()
    }
}

/// Request to load a service.
#[derive(Clone, Debug, PartialEq, Eq)]
pub struct SvcLoad {
    pub application_environment: Option<ApplicationEnvironment>,
    pub binds: Vec<ServiceBind>,
    pub composite_binds: HashMap<String, ServiceBindList>,
    pub specified_binds: Option<bool>,
    pub bldr_url: Option<String>,
    pub bldr_channel: Option<String>,
    pub config_from: Option<String>,
    pub force: Option<bool>,
    pub group: Option<String>,
    pub source: Option<String>,
    pub svc_encrypted_password: Option<String>,
    pub topology: Option<Topology>,
    pub update_strategy: Option<UpdateStrategy>,
}

impl SvcLoad {
    /// No field is set.
    pub open spec fn has_no_fields(&self) -> bool {
        &&& self.application_environment is None
        &&& self.binds@.len() == 0
        &&& self.composite_binds@ == Map::<String, ServiceBindList>::empty()
        &&& self.specified_binds is None
        &&& self.bldr_url is None
        &&& self.bldr_channel is None
        &&& self.config_from is None
        &&& self.force is None
        &&& self.group is None
        &&& self.source is None
        &&& self.svc_encrypted_password is None
        &&& self.topology is None
        &&& self.update_strategy is None
    }

    pub fn new() -> (r: SvcLoad)
        ensures
            r.has_no_fields(),
    {
        SvcLoad { application_environment: None, binds: Vec::new(), composite_binds: HashMap::new(), specified_binds: None, bldr_url: None, bldr_channel: None, config_from: None, force: None, group: None, source: None, svc_encrypted_password: None, topology: None, update_strategy: None }
    }

    pub fn clear_application_environment(&mut self)
        ensures
            *final(self) == (SvcLoad { application_environment: None, ..*old(self) }),
    {
        self.application_environment = None;
    }

    pub fn has_application_environment(&self) -> (r: bool)
        ensures
            r == self.application_environment is Some,
    {
        self.application_environment.is_some()
    }

    pub fn set_application_environment(&mut self, v: ApplicationEnvironment)
        ensures
            *final(self) == (SvcLoad { application_environment: Some(v), ..*old(self) }),
    {
        self.application_environment = Some(v);
    }

    /// The field's message, set to an empty one first when unset.
    pub fn mut_application_environment(&mut self) -> (r: &mut ApplicationEnvironment)
        ensures
            old(self).application_environment matches Some(v) ==> *r == v,
            old(self).application_environment is None ==> r.has_no_fields(),
            *final(self) == (SvcLoad { application_environment: Some(*final(r)), ..*old(self) }),
    {
        self.application_environment.get_or_insert(ApplicationEnvironment::new())
    }

    /// Moves the field's message out, leaving the field unset.
    pub fn take_application_environment(&mut self) -> (r: ApplicationEnvironment)
        ensures
            old(self).application_environment matches Some(v) ==> r == v,
            old(self).application_environment is None ==> r.has_no_fields(),
            *final(self) == (SvcLoad { application_environment: None, ..*old(self) }),
    {
        match self.application_environment.take() {
            Some(v) => v,
            None => ApplicationEnvironment::new(),
        }
    }

    /// The field's message, `None` when unset.
    pub fn get_application_environment(&self) -> (r: Option<&ApplicationEnvironment>)
        ensures
            match r {
                Some(v) => self.application_environment == Some(*v),
                None => self.application_environment is None,
            },
    {
        self.application_environment.as_ref()
    }

    pub fn clear_binds(&mut self)
        ensures
            *final(self) == (SvcLoad { binds: final(self).binds, ..*old(self) }),
            final(self).binds@.len() == 0,
    {
        self.binds = Vec::new();
    }

    pub fn set_binds(&mut self, v: Vec<ServiceBind>)
        ensures
            *final(self) == (SvcLoad { binds: v, ..*old(self) }),
    {
        self.binds = v;
    }

    pub fn mut_binds(&mut self) -> (r: &mut Vec<ServiceBind>)
        ensures
            *r == old(self).binds,
            *final(self) == (SvcLoad { binds: *final(r), ..*old(self) }),
    {
        &mut self.binds
    }

    /// Moves the list out, leaving it empty.
    pub fn take_binds(&mut self) -> (r: Vec<ServiceBind>)
        ensures
            r == old(self).binds,
            *final(self) == (SvcLoad { binds: final(self).binds, ..*old(self) }),
            final(self).binds@.len() == 0,
    {
        let mut out: Vec<ServiceBind> = Vec::new();
        std::mem::swap(&mut self.binds, &mut out);
        out
    }

    pub fn get_binds(&self) -> (r: &[ServiceBind])
        ensures
            r@ == self.binds@,
    {
        self.binds.as_slice()
    }

    pub fn clear_composite_binds(&mut self)
        ensures
            *final(self) == (SvcLoad { composite_binds: final(self).composite_binds, ..*old(self) }),
            final(self).composite_binds@ == Map::<String, ServiceBindList>::empty(),
    {
        self.composite_binds = HashMap::new();
    }

    pub fn set_composite_binds(&mut self, v: HashMap<String, ServiceBindList>)
        ensures
            *final(self) == (SvcLoad { composite_binds: v, ..*old(self) }),
    {
        self.composite_binds = v;
    }

    pub fn mut_composite_binds(&mut self) -> (r: &mut HashMap<String, ServiceBindList>)
        ensures
            *r == old(self).composite_binds,
            *final(self) == (SvcLoad { composite_binds: *final(r), ..*old(self) }),
    {
        &mut self.composite_binds
    }

    /// Moves the map out, leaving it empty.
    pub fn take_composite_binds(&mut self) -> (r: HashMap<String, ServiceBindList>)
        ensures
            r == old(self).composite_binds,
            *final(self) == (SvcLoad { composite_binds: final(self).composite_binds, ..*old(self) }),
            final(self).composite_binds@ == Map::<String, ServiceBindList>::empty(),
    {
        let mut out: HashMap<String, ServiceBindList> = HashMap::new();
        std::mem::swap(&mut self.composite_binds, &mut out);
        out
    }

    pub fn get_composite_binds(&self) -> (r: &HashMap<String, ServiceBindList>)
        ensures
            *r == self.composite_binds,
    {
        &self.composite_binds
    }

    pub fn clear_specified_binds(&mut self)
        ensures
            *final(self) == (SvcLoad { specified_binds: None, ..*old(self) }),
    {
        self.specified_binds = None;
    }

    pub fn has_specified_binds(&self) -> (r: bool)
        ensures
            r == self.specified_binds is Some,
    {
        self.specified_binds.is_some()
    }

    pub fn set_specified_binds(&mut self, v: bool)
        ensures
            *final(self) == (SvcLoad { specified_binds: Some(v), ..*old(self) }),
    {
        self.specified_binds = Some(v);
    }

    /// The field's value, `false` when unset.
    pub fn get_specified_binds(&self) -> (r: bool)
        ensures
            r == match self.specified_binds {
                Some(v) => v,
                None => false,
            },
    {
        match self.specified_binds {
            Some(v) => v,
            None => false,
        }
    }

    pub fn clear_bldr_url(&mut self)
        ensures
            *final(self) == (SvcLoad { bldr_url: None, ..*old(self) }),
    {
        self.bldr_url = None;
    }

    pub fn has_bldr_url(&self) -> (r: bool)
        ensures
            r == self.bldr_url is Some,
    {
        self.bldr_url.is_some()
    }

    pub fn set_bldr_url(&mut self, v: String)
        ensures
            *final(self) == (SvcLoad { bldr_url: Some(v), ..*old(self) }),
    {
        self.bldr_url = Some(v);
    }

    /// The field's string, set to the empty string first when unset.
    pub fn mut_bldr_url(&mut self) -> (r: &mut String)
        ensures
            (*r)@ == text_of(old(self).bldr_url),
            *final(self) == (SvcLoad { bldr_url: Some(*final(r)), ..*old(self) }),
    {
        self.bldr_url.get_or_insert(String::new())
    }

    /// Moves the field's string out, leaving the field unset.
    pub fn take_bldr_url(&mut self) -> (r: String)
        ensures
            r@ == text_of(old(self).bldr_url),
            *final(self) == (SvcLoad { bldr_url: None, ..*old(self) }),
    {
        match self.bldr_url.take() {
            Some(s) => s,
            None => String::new(),
        }
    }

    /// The field's string, empty when unset.
    pub fn get_bldr_url(&self) -> (r: &str)
        ensures
            r@ == text_of(self.bldr_url),
    {
        match &self.bldr_url {
            Some(s) => s.as_str(),
            None => {
                proof {
                    reveal_strlit("");
                }
                ""
            },
        }
    }

    pub fn clear_bldr_channel(&mut self)
        ensures
            *final(self) == (SvcLoad { bldr_channel: None, ..*old(self) }),
    {
        self.bldr_channel = None;
    }

    pub fn has_bldr_channel(&self) -> (r: bool)
        ensures
            r == self.bldr_channel is Some,
    {
        self.bldr_channel.is_some()
    }

    pub fn set_bldr_channel(&mut self, v: String)
        ensures
            *final(self) == (SvcLoad { bldr_channel: Some(v), ..*old(self) }),
    {
        self.bldr_channel = Some(v);
    }

    /// The field's string, set to the empty string first when unset.
    pub fn mut_bldr_channel(&mut self) -> (r: &mut String)
        ensures
            (*r)@ == text_of(old(self).bldr_channel),
            *final(self) == (SvcLoad { bldr_channel: Some(*final(r)), ..*old(self) }),
    {
        self.bldr_channel.get_or_insert(String::new())
    }

    /// Moves the field's string out, leaving the field unset.
    pub fn take_bldr_channel(&mut self) -> (r: String)
        ensures
            r@ == text_of(old(self).bldr_channel),
            *final(self) == (SvcLoad { bldr_channel: None, ..*old(self) }),
    {
        match self.bldr_channel.take() {
            Some(s) => s,
            None => String::new(),
        }
    }

    /// The field's string, empty when unset.
    pub fn get_bldr_channel(&self) -> (r: &str)
        ensures
            r@ == text_of(self.bldr_channel),
    {
        match &self.bldr_channel {
            Some(s) => s.as_str(),
            None => {
                proof {
                    reveal_strlit("");
                }
                ""
            },
        }
    }

    pub fn clear_config_from(&mut self)
        ensures
            *final(self) == (SvcLoad { config_from: None, ..*old(self) }),
    {
        self.config_from = None;
    }

    pub fn has_config_from(&self) -> (r: bool)
        ensures
            r == self.config_from is Some,
    {
        self.config_from.is_some()
    }

    pub fn set_config_from(&mut self, v: String)
        ensures
            *final(self) == (SvcLoad { config_from: Some(v), ..*old(self) }),
    {
        self.config_from = Some(v);
    }

    /// The field's string, set to the empty string first when unset.
    pub fn mut_config_from(&mut self) -> (r: &mut String)
        ensures
            (*r)@ == text_of(old(self).config_from),
            *final(self) == (SvcLoad { config_from: Some(*final(r)), ..*old(self) }),
    {
        self.config_from.get_or_insert(String::new())
    }

    /// Moves the field's string out, leaving the field unset.
    pub fn take_config_from(&mut self) -> (r: String)
        ensures
            r@ == text_of(old(self).config_from),
            *final(self) == (SvcLoad { config_from: None, ..*old(self) }),
    {
        match self.config_from.take() {
            Some(s) => s,
            None => String::new(),
        }
    }

    /// The field's string, empty when unset.
    pub fn get_config_from(&self) -> (r: &str)
        ensures
            r@ == text_of(self.config_from),
    {
        match &self.config_from {
            Some(s) => s.as_str(),
            None => {
                proof {
                    reveal_strlit("");
                }
                ""
            },
        }
    }

    pub fn clear_force(&mut self)
        ensures
            *final(self) == (SvcLoad { force: None, ..*old(self) }),
    {
        self.force = None;
    }

    pub fn has_force(&self) -> (r: bool)
        ensures
            r == self.force is Some,
    {
        self.force.is_some()
    }

    pub fn set_force(&mut self, v: bool)
        ensures
            *final(self) == (SvcLoad { force: Some(v), ..*old(self) }),
    {
        self.force = Some(v);
    }

    /// The field's value, `false` when unset.
    pub fn get_force(&self) -> (r: bool)
        ensures
            r == match self.force {
                Some(v) => v,
                None => false,
            },
    {
        match self.force {
            Some(v) => v,
            None => false,
        }
    }

    pub fn clear_group(&mut self)
        ensures
            *final(self) == (SvcLoad { group: None, ..*old(self) }),
    {
        self.group = None;
    }

    pub fn has_group(&self) -> (r: bool)
        ensures
            r == self.group is Some,
    {
        self.group.is_some()
    }

    pub fn set_group(&mut self, v: String)
        ensures
            *final(self) == (SvcLoad { group: Some(v), ..*old(self) }),
    {
        self.group = Some(v);
    }

    /// The field's string, set to the empty string first when unset.
    pub fn mut_group(&mut self) -> (r: &mut String)
        ensures
            (*r)@ == text_of(old(self).group),
            *final(self) == (SvcLoad { group: Some(*final(r)), ..*old(self) }),
    {
        self.group.get_or_insert(String::new())
    }

    /// Moves the field's string out, leaving the field unset.
    pub fn take_group(&mut self) -> (r: String)
        ensures
            r@ == text_of(old(self).group),
            *final(self) == (SvcLoad { group: None, ..*old(self) }),
    {
        match self.group.take() {
            Some(s) => s,
            None => String::new(),
        }
    }

    /// The field's string, empty when unset.
    pub fn get_group(&self) -> (r: &str)
        ensures
            r@ == text_of(self.group),
    {
        match &self.group {
            Some(s) => s.as_str(),
            None => {
                proof {
                    reveal_strlit("");
                }
                ""
            },
        }
    }

    pub fn clear_source(&mut self)
        ensures
            *final(self) == (SvcLoad { source: None, ..*old(self) }),
    {
        self.source = None;
    }

    pub fn has_source(&self) -> (r: bool)
        ensures
            r == self.source is Some,
    {
        self.source.is_some()
    }

    pub fn set_source(&mut self, v: String)
        ensures
            *final(self) == (SvcLoad { source: Some(v), ..*old(self) }),
    {
        self.source = Some(v);
    }

    /// The field's string, set to the empty string first when unset.
    pub fn mut_source(&mut self) -> (r: &mut String)
        ensures
            (*r)@ == text_of(old(self).source),
            *final(self) == (SvcLoad { source: Some(*final(r)), ..*old(self) }),
    {
        self.source.get_or_insert(String::new())
    }

    /// Moves the field's string out, leaving the field unset.
    pub fn take_source(&mut self) -> (r: String)
        ensures
            r@ == text_of(old(self).source),
            *final(self) == (SvcLoad { source: None, ..*old(self) }),
    {
        match self.source.take() {
            Some(s) => s,
            None => String::new(),
        }
    }

    /// The field's string, empty when unset.
    pub fn get_source(&self) -> (r: &str)
        ensures
            r@ == text_of(self.source),
    {
        match &self.source {
            Some(s) => s.as_str(),
            None => {
                proof {
                    reveal_strlit("");
                }
                ""
            },
        }
    }

    pub fn clear_svc_encrypted_password(&mut self)
        ensures
            *final(self) == (SvcLoad { svc_encrypted_password: None, ..*old(self) }),
    {
        self.svc_encrypted_password = None;
    }

    pub fn has_svc_encrypted_password(&self) -> (r: bool)
        ensures
            r == self.svc_encrypted_password is Some,
    {
        self.svc_encrypted_password.is_some()
    }

    pub fn set_svc_encrypted_password(&mut self, v: String)
        ensures
            *final(self) == (SvcLoad { svc_encrypted_password: Some(v), ..*old(self) }),
    {
        self.svc_encrypted_password = Some(v);
    }

    /// The field's string, set to the empty string first when unset.
    pub fn mut_svc_encrypted_password(&mut self) -> (r: &mut String)
        ensures
            (*r)@ == text_of(old(self).svc_encrypted_password),
            *final(self) == (SvcLoad { svc_encrypted_password: Some(*final(r)), ..*old(self) }),
    {
        self.svc_encrypted_password.get_or_insert(String::new())
    }

    /// Moves the field's string out, leaving the field unset.
    pub fn take_svc_encrypted_password(&mut self) -> (r: String)
        ensures
            r@ == text_of(old(self).svc_encrypted_password),
            *final(self) == (SvcLoad { svc_encrypted_password: None, ..*old(self) }),
    {
        match self.svc_encrypted_password.take() {
            Some(s) => s,
            None => String::new(),
        }
    }

    /// The field's string, empty when unset.
    pub fn get_svc_encrypted_password(&self) -> (r: &str)
        ensures
            r@ == text_of(self.svc_encrypted_password),
    {
        match &self.svc_encrypted_password {
            Some(s) => s.as_str(),
            None => {
                proof {
                    reveal_strlit("");
                }
                ""
            },
        }
    }

    pub fn clear_topology(&mut self)
        ensures
            *final(self) == (SvcLoad { topology: None, ..*old(self) }),
    {
        self.topology = None;
    }

    pub fn has_topology(&self) -> (r: bool)
        ensures
            r == self.topology is Some,
    {
        self.topology.is_some()
    }

    pub fn set_topology(&mut self, v: Topology)
        ensures
            *final(self) == (SvcLoad { topology: Some(v), ..*old(self) }),
    {
        self.topology = Some(v);
    }

    /// The field's value, `Topology::Standalone` when unset.
    pub fn get_topology(&self) -> (r: Topology)
        ensures
            r == match self.topology {
                Some(v) => v,
                None => Topology::Standalone,
            },
    {
        match self.topology {
            Some(v) => v,
            None => Topology::Standalone,
        }
    }

    pub fn clear_update_strategy(&mut self)
        ensures
            *final(self) == (SvcLoad { update_strategy: None, ..*old(self) }),
    {
        self.update_strategy = None;
    }

    pub fn has_update_strategy(&self) -> (r: bool)
        ensures
            r == self.update_strategy is Some,
    {
        self.update_strategy.is_some()
    }

    pub fn set_update_strategy(&mut self, v: UpdateStrategy)
        ensures
            *final(self) == (SvcLoad { update_strategy: Some(v), ..*old(self) }),
    {
        self.update_strategy = Some(v);
    }

    /// The field's value, `UpdateStrategy::NoUpdates` when unset.
    pub fn get_update_strategy(&self) -> (r: UpdateStrategy)
        ensures
            r == match self.update_strategy {
                Some(v) => v,
                None => UpdateStrategy::NoUpdates,
            },
    {
        match self.update_strategy {
            Some(v) => v,
            None => UpdateStrategy::NoUpdates,
        }
    }
}

impl CtlMessage for SvcLoad {
    open spec fn spec_message_id() -> Seq<char> {
        "SvcLoad"@
    }

    fn message_id() -> (r: &'static str) {
        "SvcLoad"
    }

    fn empty() -> (r: SvcLoad) {
        let r = SvcLoad::new();
        assert(r.spec_is_empty());
        r
    }

    open spec fn spec_is_empty(&self) -> bool {
        self.has_no_fields()
    }
}

/// Request to start a loaded service.
#[derive(Clone, Debug, PartialEq, Eq)]
pub struct SvcStart {
    pub ident: Option<PackageIdent>,
}

impl SvcStart {
    /// No field is set.
    pub open spec fn has_no_fields(&self) -> bool {
        &&& self.ident is None
    }

    pub fn new() -> (r: SvcStart)
        ensures
            r.has_no_fields(),
    {
        SvcStart { ident: None }
    }

    pub fn clear_ident(&mut self)
        ensures
            *final(self) == (SvcStart { ident: None, ..*old(self) }),
    {
        self.ident = None;
    }

    pub fn has_ident(&self) -> (r: bool)
        ensures
            r == self.ident is Some,
    {
        self.ident.is_some()
    }

    pub fn set_ident(&mut self, v: PackageIdent)
        ensures
            *final(self) == (SvcStart { ident: Some(v), ..*old(self) }),
    {
        self.ident = Some(v);
    }

    /// The field's message, set to an empty one first when unset.
    pub fn mut_ident(&mut self) -> (r: &mut PackageIdent)
        ensures
            old(self).ident matches Some(v) ==> *r == v,
            old(self).ident is None ==> r.has_no_fields(),
            *final(self) == (SvcStart { ident: Some(*final(r)), ..*old(self) }),
    {
        self.ident.get_or_insert(PackageIdent::new())
    }

    /// Moves the field's message out, leaving the field unset.
    pub fn take_ident(&mut self) -> (r: PackageIdent)
        ensures
            old(self).ident matches Some(v) ==> r == v,
            old(self).ident is None ==> r.has_no_fields(),
            *final(self) == (SvcStart { ident: None, ..*old(self) }),
    {
        match self.ident.take() {
            Some(v) => v,
            None => PackageIdent::new(),
        }
    }

    /// The field's message, `None` when unset.
    pub fn get_ident(&self) -> (r: Option<&PackageIdent>)
        ensures
            match r {
                Some(v) => self.ident == Some(*v),
                None => self.ident is None,
            },
    {
        self.ident.as_ref()
    }
}

impl CtlMessage for SvcStart {
    open spec fn spec_message_id() -> Seq<char> {
        "SvcStart"@
    }

    fn message_id() -> (r: &'static str) {
        "SvcStart"
    }

    fn empty() -> (r: SvcStart) {
        let r = SvcStart::new();
        assert(r.spec_is_empty());
        r
    }

    open spec fn spec_is_empty(&self) -> bool {
        self.has_no_fields()
    }
}

/// A line of console output of a remote operation.
#[derive(Clone, Debug, PartialEq, Eq)]
pub struct ConsoleLine {
    pub line: Option<String>,
}

impl ConsoleLine {
    /// No field is set.
    pub open spec fn has_no_fields(&self) -> bool {
        &&& self.line is None
    }

    pub fn new() -> (r: ConsoleLine)
        ensures
            r.has_no_fields(),
    {
        ConsoleLine { line: None }
    }

    pub fn clear_line(&mut self)
        ensures
            *final(self) == (ConsoleLine { line: None, ..*old(self) }),
    {
        self.line = None;
    }

    pub fn has_line(&self) -> (r: bool)
        ensures
            r == self.line is Some,
    {
        self.line.is_some()
    }

    pub fn set_line(&mut self, v: String)
        ensures
            *final(self) == (ConsoleLine { line: Some(v), ..*old(self) }),
    {
        self.line = Some(v);
    }

    /// The field's string, set to the empty string first when unset.
    pub fn mut_line(&mut self) -> (r: &mut String)
        ensures
            (*r)@ == text_of(old(self).line),
            *final(self) == (ConsoleLine { line: Some(*final(r)), ..*old(self) }),
    {
        self.line.get_or_insert(String::new())
    }

    /// Moves the field's string out, leaving the field unset.
    pub fn take_line(&mut self) -> (r: String)
        ensures
            r@ == text_of(old(self).line),
            *final(self) == (ConsoleLine { line: None, ..*old(self) }),
    {
        match self.line.take() {
            Some(s) => s,
            None => String::new(),
        }
    }

    /// The field's string, empty when unset.
    pub fn get_line(&self) -> (r: &str)
        ensures
            r@ == text_of(self.line),
    {
        match &self.line {
            Some(s) => s.as_str(),
            None => {
                proof {
                    reveal_strlit("");
                }
                ""
            },
        }
    }
}

impl CtlMessage for ConsoleLine {
    open spec fn spec_message_id() -> Seq<char> {
        "ConsoleLine"@
    }

    fn message_id() -> (r: &'static str) {
        "ConsoleLine"
    }

    fn empty() -> (r: ConsoleLine) {
        let r = ConsoleLine::new();
        assert(r.spec_is_empty());
        r
    }

    open spec fn spec_is_empty(&self) -> bool {
        self.has_no_fields()
    }
}

/// Cause of a failed request.
#[derive(Copy, Clone, Debug, PartialEq, Eq, Structural, Hash)]
pub enum ErrCode {
    Internal,
    Io,
    NotFound,
    Conflict,
    Unauthorized,
}

impl ErrCode {
    /// The number that stands for this value on the wire.
    pub open spec fn spec_value(&self) -> i32 {
        match self {
            ErrCode::Internal => 0,
            ErrCode::Io => 1,
            ErrCode::NotFound => 2,
            ErrCode::Conflict => 3,
            ErrCode::Unauthorized => 4,
        }
    }

    pub fn value(&self) -> (r: i32)
        ensures
            r == self.spec_value(),
    {
        match self {
            ErrCode::Internal => 0,
            ErrCode::Io => 1,
            ErrCode::NotFound => 2,
            ErrCode::Conflict => 3,
            ErrCode::Unauthorized => 4,
        }
    }

    /// The value a wire number stands for, if any.
    pub fn from_i32(v: i32) -> (r: Option<ErrCode>)
        ensures
            match r {
                Some(e) => e.spec_value() == v,
                None => forall|e: ErrCode| e.spec_value() != v,
            },
    {
        match v {
            0 => Some(ErrCode::Internal),
            1 => Some(ErrCode::Io),
            2 => Some(ErrCode::NotFound),
            3 => Some(ErrCode::Conflict),
            4 => Some(ErrCode::Unauthorized),
            _ => None,
        }
    }
}

} // verus!
