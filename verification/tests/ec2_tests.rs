use minecraft_aws::aws::virtual_machine::ec2::instance::Ec2Object;
use minecraft_aws::ec2::instance::{region, tag, Ec2Object as TaggedEc2Object};
use minecraft_aws::ec2_types::{
    DescribeInstancesResult, Instance, InstanceState, Region, Reservation, Tag,
};

fn s(x: &str) -> String {
    x.to_string()
}

fn instance(id: &str, state: &str) -> Instance {
    Instance {
        instance_id: Some(s(id)),
        image_id: Some(s("ami-1")),
        instance_type: Some(s("t2.micro")),
        state: Some(InstanceState { name: Some(s(state)) }),
        public_ip_address: Some(s("10.0.0.1")),
        tags: Some(vec![Tag { key: Some(s("minecraft")), value: Some(s("minecraft")) }]),
    }
}

fn untagged(id: &str) -> Instance {
    Instance { tags: None, ..instance(id, "running") }
}

fn answer(reservations: Vec<Vec<Instance>>) -> DescribeInstancesResult {
    DescribeInstancesResult {
        reservations: Some(
            reservations.into_iter().map(|v| Reservation { instances: Some(v) }).collect(),
        ),
    }
}

#[test]
fn default_tag_and_region() {
    let t = Ec2Object::default_tag();
    assert_eq!(t.key, Some(s("minecraft")));
    assert_eq!(t.value, Some(s("minecraft")));
    assert_eq!(Ec2Object::default_region(), Region::UsEast2);
    assert_eq!(region(), Region::UsEast2);
}

#[test]
fn filter_instances_across_reservations_in_order() {
    let desc = answer(vec![
        vec![instance("i-1", "running"), instance("i-2", "stopped")],
        vec![instance("i-1", "pending")],
    ]);
    let found = Ec2Object::filter_instances(&desc, "i-1").unwrap();
    assert_eq!(found.len(), 2);
    assert_eq!(found[0], instance("i-1", "running"));
    assert_eq!(found[1], instance("i-1", "pending"));
    assert!(!Ec2Object::id_is_unique(&desc, "i-1"));
    assert!(Ec2Object::id_is_unique(&desc, "i-2"));
    assert!(Ec2Object::id_is_unique(&desc, "i-9"));
}

#[test]
fn filter_instances_none_cases() {
    let desc = answer(vec![vec![instance("i-1", "running")]]);
    assert_eq!(Ec2Object::filter_instances(&desc, "i-2"), None);
    let empty = DescribeInstancesResult { reservations: None };
    assert_eq!(Ec2Object::filter_instances(&empty, "i-1"), None);
    // A reservation without an instance list spoils the whole answer.
    let broken = DescribeInstancesResult {
        reservations: Some(vec![
            Reservation { instances: Some(vec![instance("i-1", "running")]) },
            Reservation { instances: None },
        ]),
    };
    assert_eq!(Ec2Object::filter_instances(&broken, "i-1"), None);
}

#[test]
fn get_instance_and_retrieve() {
    let desc = answer(vec![vec![instance("i-2", "stopped"), instance("i-1", "running")]]);
    assert_eq!(Ec2Object::get_instance(&desc, "i-1"), Some(instance("i-1", "running")));
    assert_eq!(Ec2Object::get_instance(&desc, "i-3"), None);
    let o = Ec2Object::retrieve(&desc, "i-1").unwrap();
    assert_eq!(o.image_id, "ami-1");
    assert_eq!(o.instance_type, "t2.micro");
    assert_eq!(o.instance_id, "i-1");
    assert!(Ec2Object::retrieve(&desc, "i-3").is_none());
}

#[test]
fn retrieve_needs_image_and_type() {
    let mut i = instance("i-1", "running");
    i.image_id = None;
    let desc = answer(vec![vec![i]]);
    assert!(Ec2Object::retrieve(&desc, "i-1").is_none());
    let mut j = instance("i-1", "running");
    j.instance_type = None;
    let desc = answer(vec![vec![j]]);
    assert!(Ec2Object::retrieve(&desc, "i-1").is_none());
}

#[test]
fn status_and_public_ip() {
    let desc = answer(vec![vec![instance("i-1", "pending")]]);
    let o = Ec2Object::retrieve(&desc, "i-1").unwrap();
    assert_eq!(o.status(&desc), Some(s("pending")));
    assert_eq!(o.get_public_ip(&desc), Some(s("10.0.0.1")));
    let mut i = instance("i-1", "pending");
    i.state = None;
    i.public_ip_address = None;
    let bare = answer(vec![vec![i]]);
    assert_eq!(o.status(&bare), None);
    assert_eq!(o.get_public_ip(&bare), None);
    let gone = answer(vec![vec![]]);
    assert_eq!(o.status(&gone), None);
}

#[test]
fn start_and_stop_requests_name_the_instance() {
    let o = Ec2Object { image_id: s("ami"), instance_type: s("t"), instance_id: s("i-7") };
    assert_eq!(o.start_request().instance_ids, vec![s("i-7")]);
    assert_eq!(o.stop_request().instance_ids, vec![s("i-7")]);
}

#[test]
fn tag_builds_key_and_value() {
    let t = tag(s("k"), s("v"));
    assert_eq!(t, Tag { key: Some(s("k")), value: Some(s("v")) });
    assert!(t.same_as(&Tag { key: Some(s("k")), value: Some(s("v")) }));
    assert!(!t.same_as(&Tag { key: Some(s("k")), value: None }));
}

#[test]
fn instances_from_res_keeps_tagged_in_order() {
    let r = Reservation {
        instances: Some(vec![instance("i-1", "running"), untagged("i-2"), instance("i-3", "stopped")]),
    };
    let found = TaggedEc2Object::instances_from_res(tag(s("minecraft"), s("minecraft")), r).unwrap();
    assert_eq!(found, vec![instance("i-1", "running"), instance("i-3", "stopped")]);
    let none = Reservation { instances: Some(vec![untagged("i-2")]) };
    assert_eq!(TaggedEc2Object::instances_from_res(tag(s("minecraft"), s("minecraft")), none), None);
    let missing = Reservation { instances: None };
    assert_eq!(TaggedEc2Object::instances_from_res(tag(s("minecraft"), s("minecraft")), missing), None);
    let other = Reservation { instances: Some(vec![instance("i-1", "running")]) };
    assert_eq!(TaggedEc2Object::instances_from_res(tag(s("minecraft"), s("other")), other), None);
}

#[test]
fn tagged_retrieve_takes_first_reservation() {
    let desc = answer(vec![
        vec![untagged("i-0"), instance("i-1", "running"), instance("i-2", "running")],
        vec![instance("i-9", "running")],
    ]);
    let o = TaggedEc2Object::retrieve(desc, "minecraft").unwrap();
    assert_eq!(o.image_id, "ami-1");
    assert_eq!(o.instance_type, "t2.micro");
    assert_eq!(o.instance(), &instance("i-1", "running"));
    assert_eq!(o.image_id(), "ami-1");
    assert_eq!(o.instance_type(), "t2.micro");
    assert_eq!(o.tag(), &tag(s("minecraft"), s("minecraft")));
    assert!(TaggedEc2Object::retrieve(DescribeInstancesResult { reservations: None }, "minecraft").is_none());
    let other = answer(vec![vec![instance("i-1", "running")]]);
    assert!(TaggedEc2Object::retrieve(other, "server").is_none());
}

#[test]
fn run_request_for_one_tagged_instance() {
    let req = TaggedEc2Object::run_request("mc");
    assert_eq!(req.instance_type, Some(s("t2.micro")));
    assert_eq!(req.image_id, Some(s("ami-07efac79022b86107")));
    assert_eq!(req.min_count, 1);
    assert_eq!(req.max_count, 1);
    let specs = req.tag_specifications.unwrap();
    assert_eq!(specs.len(), 1);
    assert_eq!(specs[0].resource_type, Some(s("instance")));
    assert_eq!(specs[0].tags, Some(vec![tag(s("mc"), s("mc"))]));
}

#[test]
fn new_object_from_launch_answer() {
    let launched = Reservation { instances: Some(vec![untagged("i-0"), instance("i-5", "pending")]) };
    let o = TaggedEc2Object::new("mc", launched).unwrap();
    assert_eq!(o.image_id, "ami-07efac79022b86107");
    assert_eq!(o.instance_type, "t2.micro");
    assert_eq!(o.tag(), &tag(s("mc"), s("mc")));
    assert_eq!(o.instance(), &instance("i-5", "pending"));
    let untagged_only = Reservation { instances: Some(vec![untagged("i-0")]) };
    assert!(TaggedEc2Object::new("mc", untagged_only).is_none());
}

#[test]
fn tagged_status_lists_tagged_instances() {
    let desc = answer(vec![vec![instance("i-1", "running")]]);
    let o = TaggedEc2Object::retrieve(answer(vec![vec![instance("i-1", "running")]]), "minecraft").unwrap();
    assert_eq!(o.status(desc), Some(vec![instance("i-1", "running")]));
    assert_eq!(o.status(DescribeInstancesResult { reservations: None }), None);
}
