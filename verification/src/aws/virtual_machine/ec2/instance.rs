//! An EC2 instance found by its id in a describe-instances answer.
use vstd::prelude::*;
use crate::ec2_types::{
    DescribeInstancesResult, DescribeInstancesResultView, Instance, InstanceView, Region,
    ReservationView, StartInstancesRequest, StopInstancesRequest, Tag, copy_opt_string,
};

verus! {

/// Whether an instance carries the id `id`.
pub open spec fn id_filter(id: Seq<char>) -> spec_fn(InstanceView) -> bool {
    |i: InstanceView| i.instance_id == Some(id)
}

/// All instances of the reservations, in order; `None` when some reservation
/// lists no instances at all.
pub open spec fn all_instances(rs: Seq<ReservationView>) -> Option<Seq<InstanceView>>
    decreases rs.len(),
{
    if rs.len() == 0 {
        Some(Seq::empty())
    } else {
        match all_instances(rs.drop_last()) {
            Some(before) => match rs.last().instances {
                Some(last) => Some(before + last),
                None => None,
            },
            None => None,
        }
    }
}

/// The instances of a describe answer that carry the id `id`, in order;
/// `None` when the answer has no reservations, when a reservation lists no
/// instances, or when no instance carries the id.
pub open spec fn instances_with_id(desc: DescribeInstancesResultView, id: Seq<char>) -> Option<
    Seq<InstanceView>,
> {
    match desc.reservations {
        Some(rs) => match all_instances(rs) {
            Some(all) => {
                let found = all.filter(id_filter(id));
                if found.len() == 0 {
                    None
                } else {
                    Some(found)
                }
            },
            None => None,
        },
        None => None,
    }
}

/// The id names at most one instance of the answer.
pub open spec fn id_is_unique(desc: DescribeInstancesResultView, id: Seq<char>) -> bool {
    instances_with_id(desc, id) matches Some(found) ==> found.len() == 1
}

/// The instance of the answer that carries the id, if there is one.
pub open spec fn instance_with_id(desc: DescribeInstancesResultView, id: Seq<char>) -> Option<
    InstanceView,
> {
    match instances_with_id(desc, id) {
        Some(found) => Some(found[0]),
        None => None,
    }
}

/// Once a prefix of the reservations lacks an instance list, so does the whole.
proof fn lemma_missing_instances_stay_missing(rs: Seq<ReservationView>, k: int)
    requires
        0 <= k <= rs.len(),
        all_instances(rs.take(k)) is None,
    ensures
        all_instances(rs) is None,
    decreases rs.len() - k,
{
    if k == rs.len() {
        assert(rs.take(k) =~= rs);
    } else {
        assert(rs.take(k + 1).drop_last() =~= rs.take(k));
        lemma_missing_instances_stay_missing(rs, k + 1);
    }
}

/// An EC2 instance the library works with.
#[derive(Debug, PartialEq, Eq)]
pub struct Ec2Object {
    pub image_id: String,
    pub instance_type: String,
    pub instance_id: String,
}

pub struct Ec2ObjectView {
    pub image_id: Seq<char>,
    pub instance_type: Seq<char>,
    pub instance_id: Seq<char>,
}

impl View for Ec2Object {
    type V = Ec2ObjectView;

    open spec fn view(&self) -> Ec2ObjectView {
        Ec2ObjectView {
            image_id: self.image_id@,
            instance_type: self.instance_type@,
            instance_id: self.instance_id@,
        }
    }
}

/// The object that `retrieve` builds for the instance `i` under the id `id`.
pub open spec fn object_for(i: InstanceView, id: Seq<char>) -> Option<Ec2ObjectView> {
    match (i.image_id, i.instance_type) {
        (Some(image_id), Some(instance_type)) => Some(
            Ec2ObjectView { image_id, instance_type, instance_id: id },
        ),
        _ => None,
    }
}

/// The state name of an instance, if it reports one.
pub open spec fn state_name(i: InstanceView) -> Option<Seq<char>> {
    match i.state {
        Some(st) => st.name,
        None => None,
    }
}

impl Ec2Object {
    pub fn copy(&self) -> (r: Ec2Object)
        ensures
            r@ == self@,
    {
        Ec2Object {
            image_id: self.image_id.clone(),
            instance_type: self.instance_type.clone(),
            instance_id: self.instance_id.clone(),
        }
    }

    /// The tag that marks the library's instances: key and value "minecraft".
    pub fn default_tag() -> (t: Tag)
        ensures
            t.key.deep_view() == Some("minecraft"@),
            t.value.deep_view() == Some("minecraft"@),
    {
        Tag {
            key: Some(String::from_str("minecraft")),
            value: Some(String::from_str("minecraft")),
        }
    }

    /// The region the library works in.
    pub fn default_region() -> (r: Region)
        ensures
            r == Region::UsEast2,
    {
        Region::UsEast2
    }

    /// The instances of the answer that carry the id, in the order the answer lists them.
    pub fn filter_instances(desc: &DescribeInstancesResult, instance_id: &str) -> (r: Option<
        Vec<Instance>,
    >)
        ensures
            r.deep_view() == instances_with_id(desc.deep_view(), instance_id@),
    {
        let ghost id = instance_id@;
        let ghost pred = id_filter(id);
        let rs = match &desc.reservations {
            Some(rs) => rs,
            None => {
                return None;
            },
        };
        let ghost rsv = rs.deep_view();
        let wanted = String::from_str(instance_id);
        let mut matches: Vec<Instance> = Vec::new();
        let ghost mut seen: Seq<InstanceView> = Seq::empty();
        let mut i: usize = 0;
        proof {
            assert(rsv.take(0) =~= Seq::<ReservationView>::empty());
            reveal_with_fuel(Seq::filter, 1);
        }
        while i < rs.len()
            invariant
                i <= rs.len(),
                rsv == rs.deep_view(),
                desc.deep_view().reservations == Some(rsv),
                id == instance_id@,
                wanted@ == id,
                pred == id_filter(id),
                all_instances(rsv.take(i as int)) == Some(seen),
                matches.deep_view() == seen.filter(pred),
            decreases rs.len() - i,
        {
            proof {
                assert(rsv.take(i + 1).drop_last() =~= rsv.take(i as int));
                assert(rsv.take(i + 1).last() == rsv[i as int]);
            }
            let insts = match &rs[i].instances {
                Some(insts) => insts,
                None => {
                    proof {
                        lemma_missing_instances_stay_missing(rsv, i + 1);
                    }
                    return None;
                },
            };
            let ghost xs = insts.deep_view();
            let mut j: usize = 0;
            proof {
                assert(seen + xs.take(0) =~= seen);
            }
            while j < insts.len()
                invariant
                    j <= insts.len(),
                    xs == insts.deep_view(),
                    id == instance_id@,
                    wanted@ == id,
                    pred == id_filter(id),
                    matches.deep_view() == (seen + xs.take(j as int)).filter(pred),
                decreases insts.len() - j,
            {
                let inst = &insts[j];
                let ghost prefix = seen + xs.take(j as int);
                proof {
                    assert((seen + xs.take(j + 1)).drop_last() =~= prefix);
                    assert((seen + xs.take(j + 1)).last() == xs[j as int]);
                    reveal_with_fuel(Seq::filter, 1);
                }
                let keep = match &inst.instance_id {
                    Some(x) => x.eq(&wanted),
                    None => false,
                };
                if keep {
                    let c = inst.copy();
                    let ghost before = matches.deep_view();
                    matches.push(c);
                    assert(matches.deep_view() =~= before.push(c.deep_view()));
                }
                j = j + 1;
            }
            proof {
                assert(xs.take(xs.len() as int) =~= xs);
                seen = seen + xs;
            }
            i = i + 1;
        }
        proof {
            assert(rsv.take(rs.len() as int) =~= rsv);
        }
        if matches.len() > 0 {
            Some(matches)
        } else {
            None
        }
    }

    /// Whether the id names at most one instance of the answer.
    pub fn id_is_unique(desc: &DescribeInstancesResult, instance_id: &str) -> (b: bool)
        ensures
            b == id_is_unique(desc.deep_view(), instance_id@),
    {
        match Self::filter_instances(desc, instance_id) {
            Some(found) => found.len() == 1,
            None => true,
        }
    }

    /// The instance of the answer that carries the id.
    pub fn get_instance(desc: &DescribeInstancesResult, instance_id: &str) -> (r: Option<Instance>)
        requires
            id_is_unique(desc.deep_view(), instance_id@),
        ensures
            r.deep_view() == instance_with_id(desc.deep_view(), instance_id@),
    {
        match Self::filter_instances(desc, instance_id) {
            Some(mut found) => {
                let first = found.remove(0);
                Some(first)
            },
            None => None,
        }
    }

    /// The object for the instance with the given id, when the answer lists it
    /// together with its image and instance type.
    pub fn retrieve(desc: &DescribeInstancesResult, instance_id: &str) -> (r: Option<Ec2Object>)
        requires
            id_is_unique(desc.deep_view(), instance_id@),
        ensures
            r matches Some(o) ==> instance_with_id(desc.deep_view(), instance_id@) matches Some(i)
                && object_for(i, instance_id@) == Some(o@),
            r is None ==> (instance_with_id(desc.deep_view(), instance_id@) matches Some(i)
                ==> object_for(i, instance_id@) is None),
    {
        match Self::get_instance(desc, instance_id) {
            Some(instance) => {
                let image_id = match instance.image_id {
                    Some(x) => x,
                    None => {
                        return None;
                    },
                };
                let instance_type = match instance.instance_type {
                    Some(x) => x,
                    None => {
                        return None;
                    },
                };
                Some(Ec2Object { image_id, instance_type, instance_id: instance_id.to_string() })
            },
            None => None,
        }
    }

    /// The state name ("pending", "running", "stopping", "stopped", ...) of this instance.
    pub fn status(&self, desc: &DescribeInstancesResult) -> (r: Option<String>)
        requires
            id_is_unique(desc.deep_view(), self.instance_id@),
        ensures
            r.deep_view() == match instance_with_id(desc.deep_view(), self.instance_id@) {
                Some(i) => state_name(i),
                None => None,
            },
    {
        match Self::get_instance(desc, self.instance_id.as_str()) {
            Some(instance) => match &instance.state {
                Some(st) => copy_opt_string(&st.name),
                None => None,
            },
            None => None,
        }
    }

    /// The public IP address of this instance.
    pub fn get_public_ip(&self, desc: &DescribeInstancesResult) -> (r: Option<String>)
        requires
            id_is_unique(desc.deep_view(), self.instance_id@),
        ensures
            r.deep_view() == match instance_with_id(desc.deep_view(), self.instance_id@) {
                Some(i) => i.public_ip_address,
                None => None,
            },
    {
        match Self::get_instance(desc, self.instance_id.as_str()) {
            Some(instance) => instance.public_ip_address,
            None => None,
        }
    }

    /// The request that starts this instance.
    pub fn start_request(&self) -> (req: StartInstancesRequest)
        ensures
            req.instance_ids.deep_view() == seq![self.instance_id@],
    {
        let mut ids: Vec<String> = Vec::new();
        ids.push(self.instance_id.clone());
        assert(ids.deep_view() =~= seq![self.instance_id@]);
        StartInstancesRequest { instance_ids: ids }
    }

    /// The request that stops this instance.
    pub fn stop_request(&self) -> (req: StopInstancesRequest)
        ensures
            req.instance_ids.deep_view() == seq![self.instance_id@],
    {
        let mut ids: Vec<String> = Vec::new();
        ids.push(self.instance_id.clone());
        assert(ids.deep_view() =~= seq![self.instance_id@]);
        StopInstancesRequest { instance_ids: ids }
    }
}


/// The instance found for an id carries that id.
pub proof fn lemma_found_instance_has_id(desc: DescribeInstancesResultView, id: Seq<char>)
    ensures
        instance_with_id(desc, id) matches Some(i) ==> i.instance_id == Some(id),
{
    if let Some(found) = instances_with_id(desc, id) {
        let all = all_instances(desc.reservations->0)->0;
        all.lemma_filter_pred(id_filter(id), 0);
    }
}

/// Every instance that carries the id is among those found for it, and
/// every one found carries it.
pub proof fn lemma_instances_with_id_exact(desc: DescribeInstancesResultView, id: Seq<char>)
    requires
        desc.reservations matches Some(rs) && all_instances(rs) is Some,
    ensures
        forall|i: InstanceView|
            all_instances(desc.reservations->0)->0.contains(i) && i.instance_id == Some(id)
                ==> (instances_with_id(desc, id) matches Some(found) && found.contains(i)),
        instances_with_id(desc, id) matches Some(found) ==> forall|k: int|
            0 <= k < found.len() ==> (#[trigger] found[k]).instance_id == Some(id),
{
    let all = all_instances(desc.reservations->0)->0;
    let pred = id_filter(id);
    assert forall|i: InstanceView| all.contains(i) && i.instance_id == Some(id) implies (
    instances_with_id(desc, id) matches Some(found) && found.contains(i)) by {
        let j = choose|j: int| 0 <= j < all.len() && all[j] == i;
        all.lemma_filter_contains(pred, j);
    }
    if let Some(found) = instances_with_id(desc, id) {
        assert forall|k: int| 0 <= k < found.len() implies (#[trigger] found[k]).instance_id == Some(
            id,
        ) by {
            all.lemma_filter_pred(pred, k);
        }
    }
}

} // verus!
