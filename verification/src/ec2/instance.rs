//! An EC2 instance found by its tag: the tagged instances of a reservation,
//! the object built for the first of them, and the launch request for a new
//! tagged instance.
use vstd::prelude::*;
use crate::ec2_types::{
    DescribeInstancesResult, DescribeInstancesResultView, Instance, InstanceView, Region,
    Reservation, ReservationView, RunInstancesRequest, Tag, TagSpecification, TagView,
};

verus! {

/// The region the library works in.
pub fn region() -> (r: Region)
    ensures
        r == Region::UsEast2,
{
    Region::UsEast2
}

/// The tag with the given key and value.
pub fn tag(key: String, val: String) -> (t: Tag)
    ensures
        t.key.deep_view() == Some(key@),
        t.value.deep_view() == Some(val@),
{
    Tag { key: Some(key), value: Some(val) }
}

/// The tag both of whose key and value are `name`.
pub open spec fn tag_named(name: Seq<char>) -> TagView {
    TagView { key: Some(name), value: Some(name) }
}

/// Whether an instance carries the tag `t`.
pub open spec fn tag_filter(t: TagView) -> spec_fn(InstanceView) -> bool {
    |i: InstanceView|
        match i.tags {
            Some(ts) => ts.contains(t),
            None => false,
        }
}

/// The instances of the reservation that carry the tag, in order; `None` when
/// the reservation lists no instances or none of them carries the tag.
pub open spec fn tagged_instances(t: TagView, r: ReservationView) -> Option<Seq<InstanceView>> {
    match r.instances {
        Some(all) => {
            let found = all.filter(tag_filter(t));
            if found.len() == 0 {
                None
            } else {
                Some(found)
            }
        },
        None => None,
    }
}

/// The first reservation of a describe answer, if it has reservations.
pub open spec fn first_reservation(desc: DescribeInstancesResultView) -> Option<ReservationView> {
    match desc.reservations {
        Some(rs) => Some(rs[0]),
        None => None,
    }
}

/// The answer's reservation list, where there is one, is not empty.
pub open spec fn reservations_listed(desc: DescribeInstancesResultView) -> bool {
    desc.reservations matches Some(rs) ==> rs.len() > 0
}

/// The image the library launches (Ubuntu).
pub open spec fn ami_id() -> Seq<char> {
    "ami-07efac79022b86107"@
}

/// The instance type the library launches.
pub open spec fn ami_type() -> Seq<char> {
    "t2.micro"@
}

/// The tag that the library looks for on its instances.
pub open spec fn instance_tag() -> Seq<char> {
    "minecraft"@
}

/// Whether the list of tags holds `t`.
fn tags_contain(ts: &Vec<Tag>, t: &Tag) -> (b: bool)
    ensures
        b == ts.deep_view().contains(t.deep_view()),
{
    let mut i: usize = 0;
    while i < ts.len()
        invariant
            i <= ts.len(),
            forall|j: int| 0 <= j < i ==> ts.deep_view()[j] != t.deep_view(),
        decreases ts.len() - i,
    {
        if ts[i].same_as(t) {
            assert(ts.deep_view()[i as int] == t.deep_view());
            return true;
        }
        i = i + 1;
    }
    false
}

/// An EC2 instance the library works with, with the tag it was found by.
#[derive(Debug, PartialEq, Eq)]
pub struct Ec2Object {
    pub image_id: String,
    pub instance_type: String,
    tag: Tag,
    instance: Instance,
}

pub struct Ec2ObjectView {
    pub image_id: Seq<char>,
    pub instance_type: Seq<char>,
    pub tag: TagView,
    pub instance: InstanceView,
}

impl View for Ec2Object {
    type V = Ec2ObjectView;

    closed spec fn view(&self) -> Ec2ObjectView {
        Ec2ObjectView {
            image_id: self.image_id@,
            instance_type: self.instance_type@,
            tag: self.tag.deep_view(),
            instance: self.instance.deep_view(),
        }
    }
}

/// The object that `retrieve` builds for the tag `name` from a describe answer.
pub open spec fn retrieved(desc: DescribeInstancesResultView, name: Seq<char>) -> Option<
    Ec2ObjectView,
> {
    match first_reservation(desc) {
        Some(r) => match tagged_instances(tag_named(name), r) {
            Some(found) => match (found[0].image_id, found[0].instance_type) {
                (Some(image_id), Some(instance_type)) => Some(
                    Ec2ObjectView {
                        image_id,
                        instance_type,
                        tag: tag_named(name),
                        instance: found[0],
                    },
                ),
                _ => None,
            },
            None => None,
        },
        None => None,
    }
}

/// The object that `new` builds for the tag `name` from the launch answer.
pub open spec fn launched(r: ReservationView, name: Seq<char>) -> Option<Ec2ObjectView> {
    match tagged_instances(tag_named(instance_tag()), r) {
        Some(found) => Some(
            Ec2ObjectView {
                image_id: ami_id(),
                instance_type: ami_type(),
                tag: tag_named(name),
                instance: found[0],
            },
        ),
        None => None,
    }
}

impl Ec2Object {
    /// The instances of the reservation that carry the tag, in order.
    pub fn instances_from_res(tag: Tag, reservation: Reservation) -> (r: Option<Vec<Instance>>)
        ensures
            r.deep_view() == tagged_instances(tag.deep_view(), reservation.deep_view()),
    {
        let all = match &reservation.instances {
            Some(all) => all,
            None => {
                return None;
            },
        };
        let ghost xs = all.deep_view();
        let ghost pred = tag_filter(tag.deep_view());
        let mut found: Vec<Instance> = Vec::new();
        let mut i: usize = 0;
        proof {
            reveal_with_fuel(Seq::filter, 1);
            assert(xs.take(0) =~= Seq::<InstanceView>::empty());
        }
        while i < all.len()
            invariant
                i <= all.len(),
                xs == all.deep_view(),
                pred == tag_filter(tag.deep_view()),
                found.deep_view() == xs.take(i as int).filter(pred),
            decreases all.len() - i,
        {
            proof {
                assert(xs.take(i + 1).drop_last() =~= xs.take(i as int));
                reveal_with_fuel(Seq::filter, 1);
            }
            let inst = &all[i];
            let keep = match &inst.tags {
                Some(ts) => tags_contain(ts, &tag),
                None => false,
            };
            if keep {
                let c = inst.copy();
                let ghost before = found.deep_view();
                found.push(c);
                assert(found.deep_view() =~= before.push(c.deep_view()));
            }
            i = i + 1;
        }
        assert(xs.take(all.len() as int) =~= xs);
        if found.len() > 0 {
            Some(found)
        } else {
            None
        }
    }

    /// The object for the first instance of the answer's first reservation
    /// that carries the tag `instance_tag` (as key and value), when the answer
    /// gives its image and instance type.
    pub fn retrieve(desc: DescribeInstancesResult, instance_tag: &str) -> (r: Option<Ec2Object>)
        requires
            reservations_listed(desc.deep_view()),
        ensures
            r matches Some(o) ==> retrieved(desc.deep_view(), instance_tag@) == Some(o@),
            r is None ==> retrieved(desc.deep_view(), instance_tag@) is None,
    {
        let mut reservations = match desc.reservations {
            Some(rs) => rs,
            None => {
                return None;
            },
        };
        let first = reservations.remove(0);
        let found = Self::instances_from_res(
            tag(instance_tag.to_string(), instance_tag.to_string()),
            first,
        );
        match found {
            Some(mut instances) => {
                let instance = instances.remove(0);
                let image_id = match &instance.image_id {
                    Some(x) => x.clone(),
                    None => {
                        return None;
                    },
                };
                let instance_type = match &instance.instance_type {
                    Some(x) => x.clone(),
                    None => {
                        return None;
                    },
                };
                Some(
                    Ec2Object {
                        image_id,
                        instance_type,
                        tag: tag(instance_tag.to_string(), instance_tag.to_string()),
                        instance,
                    },
                )
            },
            None => None,
        }
    }

    /// The request that launches one new instance of the library's image and
    /// type, tagged with `instance_tag` as key and value.
    pub fn run_request(instance_tag: &str) -> (req: RunInstancesRequest)
        ensures
            req.instance_type.deep_view() == Some(ami_type()),
            req.image_id.deep_view() == Some(ami_id()),
            req.min_count == 1,
            req.max_count == 1,
            req.tag_specifications matches Some(specs) && specs.len() == 1 && specs[0].deep_view()
                == (crate::ec2_types::TagSpecificationView {
                resource_type: Some("instance"@),
                tags: Some(seq![tag_named(instance_tag@)]),
            }),
    {
        let mut tags: Vec<Tag> = Vec::new();
        tags.push(tag(instance_tag.to_string(), instance_tag.to_string()));
        assert(tags.deep_view() =~= seq![tag_named(instance_tag@)]);
        let mut specs: Vec<TagSpecification> = Vec::new();
        specs.push(
            TagSpecification { resource_type: Some(String::from_str("instance")), tags: Some(tags) },
        );
        RunInstancesRequest {
            instance_type: Some(String::from_str("t2.micro")),
            image_id: Some(String::from_str("ami-07efac79022b86107")),
            min_count: 1,
            max_count: 1,
            tag_specifications: Some(specs),
        }
    }

    /// The object for a newly launched instance: the first instance of the
    /// launch answer that carries the library's own tag.
    pub fn new(instance_tag: &str, launched_reservation: Reservation) -> (r: Option<Ec2Object>)
        ensures
            r matches Some(o) ==> launched(launched_reservation.deep_view(), instance_tag@) == Some(
                o@,
            ),
            r is None ==> launched(launched_reservation.deep_view(), instance_tag@) is None,
    {
        let found = Self::instances_from_res(
            tag(String::from_str("minecraft"), String::from_str("minecraft")),
            launched_reservation,
        );
        match found {
            Some(mut instances) => {
                let instance = instances.remove(0);
                Some(
                    Ec2Object {
                        image_id: String::from_str("ami-07efac79022b86107"),
                        instance_type: String::from_str("t2.micro"),
                        tag: tag(instance_tag.to_string(), instance_tag.to_string()),
                        instance,
                    },
                )
            },
            None => None,
        }
    }

    /// The instances of the answer's first reservation that carry the
    /// library's own tag (the ones a status check shows), or `None` when the
    /// answer has no reservations.
    pub fn status(&self, desc: DescribeInstancesResult) -> (r: Option<Vec<Instance>>)
        requires
            reservations_listed(desc.deep_view()),
            first_reservation(desc.deep_view()) matches Some(first) ==> tagged_instances(
                tag_named(instance_tag()),
                first,
            ) is Some,
        ensures
            r.deep_view() == match first_reservation(desc.deep_view()) {
                Some(first) => tagged_instances(tag_named(instance_tag()), first),
                None => None,
            },
    {
        let mut reservations = match desc.reservations {
            Some(rs) => rs,
            None => {
                return None;
            },
        };
        let first = reservations.remove(0);
        Self::instances_from_res(tag(String::from_str("minecraft"), String::from_str("minecraft")), first)
    }

    /// The tag this instance was found by.
    pub fn tag(&self) -> (t: &Tag)
        ensures
            t.deep_view() == self@.tag,
    {
        &self.tag
    }

    /// The image the instance runs.
    pub fn image_id(&self) -> (r: &String)
        ensures
            r@ == self@.image_id,
    {
        &self.image_id
    }

    /// The instance's type.
    pub fn instance_type(&self) -> (r: &String)
        ensures
            r@ == self@.instance_type,
    {
        &self.instance_type
    }

    /// The instance as the answer described it.
    pub fn instance(&self) -> (i: &Instance)
        ensures
            i.deep_view() == self@.instance,
    {
        &self.instance
    }
}


/// The instances found for a tag are exactly the reservation's instances
/// that carry the tag.
pub proof fn lemma_tagged_instances_exact(t: TagView, r: ReservationView)
    requires
        r.instances is Some,
    ensures
        forall|i: InstanceView|
            r.instances->0.contains(i) && (i.tags matches Some(ts) && ts.contains(t)) ==> (
            tagged_instances(t, r) matches Some(found) && found.contains(i)),
        tagged_instances(t, r) matches Some(found) ==> forall|k: int|
            0 <= k < found.len() ==> ((#[trigger] found[k]).tags matches Some(ts) && ts.contains(t)),
{
    let all = r.instances->0;
    let pred = tag_filter(t);
    assert forall|i: InstanceView|
        all.contains(i) && (i.tags matches Some(ts) && ts.contains(t)) implies (tagged_instances(
        t,
        r,
    ) matches Some(found) && found.contains(i)) by {
        let j = choose|j: int| 0 <= j < all.len() && all[j] == i;
        all.lemma_filter_contains(pred, j);
    }
    if let Some(found) = tagged_instances(t, r) {
        assert forall|k: int| 0 <= k < found.len() implies ((#[trigger] found[k]).tags matches Some(
            ts,
        ) && ts.contains(t)) by {
            all.lemma_filter_pred(pred, k);
        }
    }
}

} // verus!
