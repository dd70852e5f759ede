//! PR instances: what is known of them, and what is asked of the cluster for them.
pub mod instance;
pub mod lifecycle;
pub mod manifest;
pub mod recovery;
pub mod turn;

use crate::config::{BackendServer, BackendServerView, KubernetesConfig};
use crate::k8s::instance::{
    backend_name, backend_name_of, build_tag, build_tag_of, InstanceState, InstanceStateView, Moment,
    PrInstance, PrInstanceView,
};
use crate::proxy::registry::BackendRegistry;
use crate::text::{decimal, numbered};
use std::collections::HashMap;
use vstd::prelude::*;

verus! {

/// PR instances by PR number.
pub type Instances = Map<u32, PrInstanceView>;

/// Manages PR instances in Kubernetes.
pub struct K8sManager {
    config: KubernetesConfig,
    /// Active PR instances by PR number
    instances: HashMap<u32, PrInstance>,
}

impl View for K8sManager {
    type V = Instances;

    closed spec fn view(&self) -> Instances {
        self.instances@.map_values(|i: PrInstance| i@)
    }
}

/// The instances after one of them went to another state; a PR without an instance gets none.
pub open spec fn with_state(m: Instances, pr_number: u32, state: InstanceStateView) -> Instances {
    if m.contains_key(pr_number) {
        m.insert(pr_number, PrInstanceView { state, ..m[pr_number] })
    } else {
        m
    }
}

/// Whether the row holds each instance once, and nothing else.
pub open spec fn is_snapshot(row: Seq<(u32, PrInstance)>, m: Instances) -> bool {
    &&& forall|i: int|
        0 <= i < row.len() ==> m.contains_key((#[trigger] row[i]).0) && m[row[i].0] == row[i].1@
    &&& forall|i: int, j: int|
        0 <= i < j < row.len() ==> (#[trigger] row[i]).0 != (#[trigger] row[j]).0
    &&& forall|pr: u32| #[trigger]
        m.contains_key(pr) ==> exists|i: int| 0 <= i < row.len() && (#[trigger] row[i]).0 == pr
}

/// The backend under which a running PR is offered.
pub open spec fn pr_backend(pr_number: u32, address: Seq<char>, port: u16) -> BackendServerView {
    BackendServerView {
        address,
        port,
        description: Some("PR #"@ + decimal(pr_number as nat)),
    }
}

impl K8sManager {
    /// The settings in force.
    pub closed spec fn settings(&self) -> KubernetesConfig {
        self.config
    }

    /// A manager without instances.
    pub fn new(config: KubernetesConfig) -> (r: Self)
        ensures
            r@ == Instances::empty(),
            r.settings() == config,
    {
        let r = K8sManager { config, instances: HashMap::new() };
        assert(r@ =~= Instances::empty());
        r
    }

    /// Check if a PR instance exists
    pub fn has_instance(&self, pr_number: u32) -> (r: bool)
        ensures
            r == self@.contains_key(pr_number),
    {
        broadcast use vstd::std_specs::hash::group_hash_axioms;

        self.instances.contains_key(&pr_number)
    }

    /// Keeps an instance under its PR number, in place of any before it.
    pub(crate) fn put(&mut self, pr_number: u32, instance: PrInstance)
        ensures
            final(self)@ == old(self)@.insert(pr_number, instance@),
            final(self).settings() == old(self).settings(),
    {
        broadcast use vstd::std_specs::hash::group_hash_axioms;

        self.instances.insert(pr_number, instance);
        assert(self@ =~= old(self)@.insert(pr_number, instance@));
    }

    /// Create an instance in Building state with commit info and queue URL
    pub fn create_building_instance(
        &mut self,
        pr_number: u32,
        commit_hash: String,
        commit_hash_short: String,
        queue_url: String,
        now: Moment,
    )
        ensures
            final(self)@ == old(self)@.insert(
                pr_number,
                PrInstanceView {
                    pr_number,
                    commit_hash: commit_hash@,
                    commit_hash_short: commit_hash_short@,
                    state: InstanceStateView::Building {
                        started_at: now,
                        build_url: Some(queue_url@),
                    },
                },
            ),
            final(self).settings() == old(self).settings(),
    {
        let instance = PrInstance::new_building(
            pr_number,
            commit_hash,
            commit_hash_short,
            queue_url,
            now,
        );
        self.put(pr_number, instance);
    }

    /// Create an instance in Deploying state (skipping build because image exists)
    pub fn create_deploying_instance(
        &mut self,
        pr_number: u32,
        commit_hash: String,
        commit_hash_short: String,
    )
        ensures
            final(self)@ == old(self)@.insert(
                pr_number,
                PrInstanceView {
                    pr_number,
                    commit_hash: commit_hash@,
                    commit_hash_short: commit_hash_short@,
                    state: InstanceStateView::Deploying {
                        image_tag: build_tag(pr_number, commit_hash_short@),
                    },
                },
            ),
            final(self).settings() == old(self).settings(),
    {
        let image_tag = build_tag_of(pr_number, commit_hash_short.as_str());
        let instance = PrInstance::new_deploying(
            pr_number,
            commit_hash,
            commit_hash_short,
            image_tag,
        );
        self.put(pr_number, instance);
    }

    /// Get the current state of a PR instance
    pub fn get_instance_state(&self, pr_number: u32) -> (r: Option<InstanceState>)
        ensures
            match r {
                Some(s) => self@.contains_key(pr_number) && self@[pr_number].state == s@,
                None => !self@.contains_key(pr_number),
            },
    {
        broadcast use vstd::std_specs::hash::group_hash_axioms;

        match self.instances.get(&pr_number) {
            Some(i) => Some(i.state.clone()),
            None => None,
        }
    }

    /// Update instance state (called by lifecycle loop)
    pub fn update_instance_state(&mut self, pr_number: u32, state: InstanceState)
        ensures
            final(self)@ == with_state(old(self)@, pr_number, state@),
            final(self).settings() == old(self).settings(),
    {
        broadcast use vstd::std_specs::hash::group_hash_axioms;

        match self.instances.remove(&pr_number) {
            Some(i) => {
                let changed = PrInstance {
                    pr_number: i.pr_number,
                    commit_hash: i.commit_hash,
                    commit_hash_short: i.commit_hash_short,
                    state,
                };
                self.instances.insert(pr_number, changed);
            },
            None => {},
        }
        assert(self@ =~= with_state(old(self)@, pr_number, state@));
    }

    /// Remove an instance
    pub fn remove_instance(&mut self, pr_number: u32)
        ensures
            final(self)@ == old(self)@.remove(pr_number),
            final(self).settings() == old(self).settings(),
    {
        broadcast use vstd::std_specs::hash::group_hash_axioms;

        self.instances.remove(&pr_number);
        assert(self@ =~= old(self)@.remove(pr_number));
    }

    /// Get all instances that need processing
    pub fn get_instances_snapshot(&self) -> (r: Vec<(u32, PrInstance)>)
        ensures
            is_snapshot(r@, self@),
    {
        broadcast use vstd::std_specs::hash::group_hash_axioms;

        let ghost all = vstd::std_specs::iter::IteratorSpec::remaining(
            &vstd::std_specs::hash::spec_hash_map_iter(&self.instances),
        );
        let mut row: Vec<(u32, PrInstance)> = Vec::new();
        for e in it: self.instances.iter()
            invariant
                it.seq() == all,
                all.no_duplicates(),
                row@.len() == it.index(),
                forall|i: int|
                    0 <= i < row@.len() ==> (#[trigger] row@[i]).0 == *all[i].0 && row@[i].1
                        == *all[i].1,
        {
            row.push((*e.0, e.1.clone()));
        }
        proof {
            let m = self.instances@;
            assert forall|i: int| 0 <= i < row@.len() implies self@.contains_key(
                (#[trigger] row@[i]).0,
            ) && self@[row@[i].0] == row@[i].1@ by {
                assert(m.contains_key(*all[i].0) && m[*all[i].0] == *all[i].1);
            }
            assert forall|i: int, j: int| 0 <= i < j < row@.len() implies (#[trigger] row@[i]).0
                != (#[trigger] row@[j]).0 by {
                assert(m[*all[i].0] == *all[i].1);
                assert(m[*all[j].0] == *all[j].1);
                assert(all[i] != all[j]);
            }
            assert forall|pr: u32| #[trigger] self@.contains_key(pr) implies exists|i: int|
                0 <= i < row@.len() && (#[trigger] row@[i]).0 == pr by {
                assert(m.contains_key(pr));
                assert(all.contains((&pr, &m[pr])));
                let i = choose|i: int| 0 <= i < all.len() && all[i] == (&pr, &m[pr]);
                assert(row@[i].0 == pr);
            }
        }
        row
    }

    /// Register a ready PR instance as a backend
    pub fn register_backend(
        &self,
        pr_number: u32,
        address: String,
        port: u16,
        backends: &mut BackendRegistry,
    )
        ensures
            final(backends)@ == old(backends)@.with_dynamic(
                backend_name(pr_number),
                pr_backend(pr_number, address@, port),
            ),
    {
        let name = backend_name_of(pr_number);
        let backend = BackendServer {
            address,
            port,
            description: Some(numbered("PR #", pr_number)),
        };
        backends.add_dynamic(name, backend);
    }

    /// Unregister a PR instance backend
    pub fn unregister_backend(&self, pr_number: u32, backends: &mut BackendRegistry)
        ensures
            final(backends)@ == old(backends)@.without_dynamic(backend_name(pr_number)),
    {
        let name = backend_name_of(pr_number);
        backends.remove_dynamic(name.as_str());
    }

    /// Get config
    pub fn config(&self) -> (r: &KubernetesConfig)
        ensures
            *r == self.settings(),
    {
        &self.config
    }
}

} // verus!
