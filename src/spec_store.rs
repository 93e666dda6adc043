//! The infrastructure spec: the declared deployment, and the identifiers of
//! what has been created for it. A missing identifier means "not created
//! yet"; a present one means "created, do not create again".
use vstd::prelude::*;
use crate::apply::GROUP_COUNT;
use crate::teardown::CLASS_COUNT;

verus! {

/// Identifiers that the cloud assigned to created resources.
#[derive(Clone, Debug, PartialEq, Eq)]
pub struct Provenance {
    pub signing_key_arns: Option<String>,
    pub network_stack_id: Option<String>,
    pub validators_stack_id: Option<String>,
    pub telemetry_stack_id: Option<String>,
    pub bucket_name: Option<String>,
    pub log_group_name: Option<String>,
    pub static_ip_allocations: Option<String>,
    pub volume_ids: Option<String>,
    /// Handles of creations requested but not yet seen to finish, one per
    /// apply group.
    pub signing_keys_request: Option<String>,
    pub network_stack_request: Option<String>,
    pub validators_stack_request: Option<String>,
    pub telemetry_stack_request: Option<String>,
}

/// The declared deployment and its provenance.
#[derive(Clone, Debug, PartialEq, Eq)]
pub struct InfrastructureSpec {
    pub network_name: String,
    pub region: String,
    pub instance_mode: String,
    pub ip_mode: String,
    pub volume_size_in_gb: u32,
    pub validator_nodes: u32,
    pub auxiliary_nodes: u32,
    pub enable_load_balancer: bool,
    pub disable_logs_auto_removal: bool,
    pub profiling_enabled: bool,
    pub provenance: Provenance,
}

fn copy_id(id: &Option<String>) -> (r: Option<String>)
    ensures
        r == *id,
{
    match id {
        Some(s) => Some(s.clone()),
        None => None,
    }
}

impl Provenance {
    /// A spec with nothing created yet.
    pub fn empty() -> (r: Provenance)
        ensures
            r.group_slots() == seq![None::<String>, None, None, None],
            r.class_slots() == seq![None::<String>, None, None, None, None, None],
            r.request_slots() == seq![None::<String>, None, None, None],
    {
        Provenance {
            signing_key_arns: None,
            network_stack_id: None,
            validators_stack_id: None,
            telemetry_stack_id: None,
            bucket_name: None,
            log_group_name: None,
            static_ip_allocations: None,
            volume_ids: None,
            signing_keys_request: None,
            network_stack_request: None,
            validators_stack_request: None,
            telemetry_stack_request: None,
        }
    }

    /// The identifier of each apply group, in dependency order.
    pub open spec fn group_slots(&self) -> Seq<Option<String>> {
        seq![
            self.signing_key_arns,
            self.network_stack_id,
            self.validators_stack_id,
            self.telemetry_stack_id,
        ]
    }

    /// The pending creation handle of each apply group, in dependency order.
    pub open spec fn request_slots(&self) -> Seq<Option<String>> {
        seq![
            self.signing_keys_request,
            self.network_stack_request,
            self.validators_stack_request,
            self.telemetry_stack_request,
        ]
    }

    /// The identifier that each teardown class is found by, in deletion
    /// order: the objects are found through their bucket, and the stack is
    /// the validators' stack.
    pub open spec fn class_slots(&self) -> Seq<Option<String>> {
        seq![
            self.bucket_name,
            self.bucket_name,
            self.log_group_name,
            self.static_ip_allocations,
            self.volume_ids,
            self.validators_stack_id,
        ]
    }

    pub fn group_ids(&self) -> (r: Vec<Option<String>>)
        ensures
            r@ == self.group_slots(),
            r@.len() == GROUP_COUNT,
    {
        let mut r: Vec<Option<String>> = Vec::new();
        r.push(copy_id(&self.signing_key_arns));
        r.push(copy_id(&self.network_stack_id));
        r.push(copy_id(&self.validators_stack_id));
        r.push(copy_id(&self.telemetry_stack_id));
        assert(r@ =~= self.group_slots());
        r
    }

    /// Writes back the identifiers that an apply run recorded.
    pub fn set_group_ids(&mut self, ids: &Vec<Option<String>>)
        requires
            ids@.len() == GROUP_COUNT,
        ensures
            final(self).group_slots() == ids@,
            final(self).bucket_name == old(self).bucket_name,
            final(self).log_group_name == old(self).log_group_name,
            final(self).static_ip_allocations == old(self).static_ip_allocations,
            final(self).volume_ids == old(self).volume_ids,
            final(self).request_slots() == old(self).request_slots(),
    {
        self.signing_key_arns = copy_id(&ids[0]);
        self.network_stack_id = copy_id(&ids[1]);
        self.validators_stack_id = copy_id(&ids[2]);
        self.telemetry_stack_id = copy_id(&ids[3]);
        assert(self.group_slots() =~= ids@);
    }

    pub fn request_handles(&self) -> (r: Vec<Option<String>>)
        ensures
            r@ == self.request_slots(),
            r@.len() == GROUP_COUNT,
    {
        let mut r: Vec<Option<String>> = Vec::new();
        r.push(copy_id(&self.signing_keys_request));
        r.push(copy_id(&self.network_stack_request));
        r.push(copy_id(&self.validators_stack_request));
        r.push(copy_id(&self.telemetry_stack_request));
        assert(r@ =~= self.request_slots());
        r
    }

    /// Writes back the creation handles that an apply run holds.
    pub fn set_request_handles(&mut self, handles: &Vec<Option<String>>)
        requires
            handles@.len() == GROUP_COUNT,
        ensures
            final(self).request_slots() == handles@,
            final(self).group_slots() == old(self).group_slots(),
            final(self).class_slots() == old(self).class_slots(),
    {
        self.signing_keys_request = copy_id(&handles[0]);
        self.network_stack_request = copy_id(&handles[1]);
        self.validators_stack_request = copy_id(&handles[2]);
        self.telemetry_stack_request = copy_id(&handles[3]);
        assert(self.request_slots() =~= handles@);
        assert(self.group_slots() =~= old(self).group_slots());
        assert(self.class_slots() =~= old(self).class_slots());
    }

    pub fn class_ids(&self) -> (r: Vec<Option<String>>)
        ensures
            r@ == self.class_slots(),
            r@.len() == CLASS_COUNT,
    {
        let mut r: Vec<Option<String>> = Vec::new();
        r.push(copy_id(&self.bucket_name));
        r.push(copy_id(&self.bucket_name));
        r.push(copy_id(&self.log_group_name));
        r.push(copy_id(&self.static_ip_allocations));
        r.push(copy_id(&self.volume_ids));
        r.push(copy_id(&self.validators_stack_id));
        assert(r@ =~= self.class_slots());
        r
    }

    /// Writes back the identifiers that a teardown run left. The bucket's
    /// name stays while the bucket itself does, whatever became of its
    /// objects.
    pub fn set_class_ids(&mut self, ids: &Vec<Option<String>>)
        requires
            ids@.len() == CLASS_COUNT,
        ensures
            final(self).bucket_name == ids@[1],
            final(self).log_group_name == ids@[2],
            final(self).static_ip_allocations == ids@[3],
            final(self).volume_ids == ids@[4],
            final(self).validators_stack_id == ids@[5],
            final(self).signing_key_arns == old(self).signing_key_arns,
            final(self).network_stack_id == old(self).network_stack_id,
            final(self).telemetry_stack_id == old(self).telemetry_stack_id,
            final(self).request_slots() == old(self).request_slots(),
    {
        self.bucket_name = copy_id(&ids[1]);
        self.log_group_name = copy_id(&ids[2]);
        self.static_ip_allocations = copy_id(&ids[3]);
        self.volume_ids = copy_id(&ids[4]);
        self.validators_stack_id = copy_id(&ids[5]);
    }
}

} // verus!
