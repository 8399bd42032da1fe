//! The EC2 records that the library reads and writes, held as plain values:
//! the parts of a describe-instances answer that the lookups read, and the
//! requests that the library fills in.
use vstd::prelude::*;

verus! {

/// The AWS regions the library works in.
#[derive(Clone, Copy, Debug, PartialEq, Eq, Structural)]
pub enum Region {
    UsEast2,
}

/// A key/value tag on an EC2 resource.
#[derive(Debug, PartialEq, Eq)]
pub struct Tag {
    pub key: Option<String>,
    pub value: Option<String>,
}

pub struct TagView {
    pub key: Option<Seq<char>>,
    pub value: Option<Seq<char>>,
}

impl DeepView for Tag {
    type V = TagView;

    open spec fn deep_view(&self) -> TagView {
        TagView { key: self.key.deep_view(), value: self.value.deep_view() }
    }
}

/// The lifecycle state of an instance; `name` is e.g. "running" or "stopped".
#[derive(Debug, PartialEq, Eq)]
pub struct InstanceState {
    pub name: Option<String>,
}

pub struct InstanceStateView {
    pub name: Option<Seq<char>>,
}

impl DeepView for InstanceState {
    type V = InstanceStateView;

    open spec fn deep_view(&self) -> InstanceStateView {
        InstanceStateView { name: self.name.deep_view() }
    }
}

/// One EC2 instance as a describe-instances answer reports it.
#[derive(Debug, PartialEq, Eq)]
pub struct Instance {
    pub instance_id: Option<String>,
    pub image_id: Option<String>,
    pub instance_type: Option<String>,
    pub state: Option<InstanceState>,
    pub public_ip_address: Option<String>,
    pub tags: Option<Vec<Tag>>,
}

pub struct InstanceView {
    pub instance_id: Option<Seq<char>>,
    pub image_id: Option<Seq<char>>,
    pub instance_type: Option<Seq<char>>,
    pub state: Option<InstanceStateView>,
    pub public_ip_address: Option<Seq<char>>,
    pub tags: Option<Seq<TagView>>,
}

impl DeepView for Instance {
    type V = InstanceView;

    open spec fn deep_view(&self) -> InstanceView {
        InstanceView {
            instance_id: self.instance_id.deep_view(),
            image_id: self.image_id.deep_view(),
            instance_type: self.instance_type.deep_view(),
            state: self.state.deep_view(),
            public_ip_address: self.public_ip_address.deep_view(),
            tags: self.tags.deep_view(),
        }
    }
}

/// A group of instances launched together.
#[derive(Debug, PartialEq, Eq)]
pub struct Reservation {
    pub instances: Option<Vec<Instance>>,
}

pub struct ReservationView {
    pub instances: Option<Seq<InstanceView>>,
}

impl DeepView for Reservation {
    type V = ReservationView;

    open spec fn deep_view(&self) -> ReservationView {
        ReservationView { instances: self.instances.deep_view() }
    }
}

/// The answer to a describe-instances request.
#[derive(Debug, PartialEq, Eq)]
pub struct DescribeInstancesResult {
    pub reservations: Option<Vec<Reservation>>,
}

pub struct DescribeInstancesResultView {
    pub reservations: Option<Seq<ReservationView>>,
}

impl DeepView for DescribeInstancesResult {
    type V = DescribeInstancesResultView;

    open spec fn deep_view(&self) -> DescribeInstancesResultView {
        DescribeInstancesResultView { reservations: self.reservations.deep_view() }
    }
}

/// A request to start the listed instances.
#[derive(Debug, PartialEq, Eq)]
pub struct StartInstancesRequest {
    pub instance_ids: Vec<String>,
}

/// A request to stop the listed instances.
#[derive(Debug, PartialEq, Eq)]
pub struct StopInstancesRequest {
    pub instance_ids: Vec<String>,
}

/// Tags to put on a resource of the given type when it is created.
#[derive(Debug, PartialEq, Eq)]
pub struct TagSpecification {
    pub resource_type: Option<String>,
    pub tags: Option<Vec<Tag>>,
}

pub struct TagSpecificationView {
    pub resource_type: Option<Seq<char>>,
    pub tags: Option<Seq<TagView>>,
}

impl DeepView for TagSpecification {
    type V = TagSpecificationView;

    open spec fn deep_view(&self) -> TagSpecificationView {
        TagSpecificationView { resource_type: self.resource_type.deep_view(), tags: self.tags.deep_view() }
    }
}

/// A request to launch new instances.
#[derive(Debug, PartialEq, Eq)]
pub struct RunInstancesRequest {
    pub instance_type: Option<String>,
    pub image_id: Option<String>,
    pub min_count: i64,
    pub max_count: i64,
    pub tag_specifications: Option<Vec<TagSpecification>>,
}

/// A copy of an optional string.
pub fn copy_opt_string(s: &Option<String>) -> (r: Option<String>)
    ensures
        r.deep_view() == s.deep_view(),
{
    match s {
        Some(x) => Some(x.clone()),
        None => None,
    }
}

/// Whether two optional strings are equal.
pub fn same_opt_string(a: &Option<String>, b: &Option<String>) -> (r: bool)
    ensures
        r == (a.deep_view() == b.deep_view()),
{
    match a {
        Some(x) => match b {
            Some(y) => {
                let e = x.eq(y);
                e
            },
            None => false,
        },
        None => b.is_none(),
    }
}

impl Tag {
    /// Whether two tags have the same key and the same value.
    pub fn same_as(&self, other: &Tag) -> (b: bool)
        ensures
            b == (self.deep_view() == other.deep_view()),
    {
        same_opt_string(&self.key, &other.key) && same_opt_string(&self.value, &other.value)
    }

    pub fn copy(&self) -> (r: Tag)
        ensures
            r.deep_view() == self.deep_view(),
    {
        Tag { key: copy_opt_string(&self.key), value: copy_opt_string(&self.value) }
    }
}

/// A copy of a list of tags.
pub fn copy_tags(tags: &Vec<Tag>) -> (r: Vec<Tag>)
    ensures
        r.deep_view() == tags.deep_view(),
{
    let mut r: Vec<Tag> = Vec::new();
    let mut i: usize = 0;
    while i < tags.len()
        invariant
            i <= tags.len(),
            r.deep_view() == tags.deep_view().take(i as int),
        decreases tags.len() - i,
    {
        let t = tags[i].copy();
        let ghost before = r.deep_view();
        r.push(t);
        assert(r.deep_view() =~= before.push(t.deep_view()));
        assert(r.deep_view() =~= tags.deep_view().take(i + 1));
        i = i + 1;
    }
    assert(tags.deep_view().take(tags.len() as int) =~= tags.deep_view());
    r
}

impl Instance {
    pub fn copy(&self) -> (r: Instance)
        ensures
            r.deep_view() == self.deep_view(),
    {
        Instance {
            instance_id: copy_opt_string(&self.instance_id),
            image_id: copy_opt_string(&self.image_id),
            instance_type: copy_opt_string(&self.instance_type),
            state: match &self.state {
                Some(st) => Some(InstanceState { name: copy_opt_string(&st.name) }),
                None => None,
            },
            public_ip_address: copy_opt_string(&self.public_ip_address),
            tags: match &self.tags {
                Some(t) => Some(copy_tags(t)),
                None => None,
            },
        }
    }
}

} // verus!
