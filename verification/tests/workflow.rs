use ecs_jumper::model::Container;
use ecs_jumper::model::TaskDesc;
use ecs_jumper::session::Action;
use ecs_jumper::session::Session;

fn fresh_session() -> Session {
    Session::new(
        String::from("us-west-2"),
        String::from("demo"),
        String::from("web-svc"),
        String::from("web"),
    )
}

fn one_web_task(image: &str) -> Vec<TaskDesc> {
    vec![TaskDesc {
        containers: vec![Container {
            name: Some(String::from("web")),
            image: Some(String::from(image)),
        }],
    }]
}

#[test]
fn first_action_is_list() {
    let s = fresh_session();
    assert!(matches!(s.next_action(), Action::CallList));
}

#[test]
fn zero_tasks_no_output_success_exit() {
    let mut s = fresh_session();
    assert!(matches!(s.next_action(), Action::CallList));
    s.on_list_ok(Vec::new());
    assert!(matches!(s.next_action(), Action::ExitOk));
}

#[test]
fn each_task_described_once_in_order() {
    let mut s = fresh_session();
    assert!(matches!(s.next_action(), Action::CallList));
    s.on_list_ok(vec![String::from("arn-1"), String::from("arn-2")]);

    let mut described = Vec::new();
    let mut blocks = Vec::new();
    loop {
        match s.next_action() {
            Action::CallDescribe(arn) => {
                described.push(arn.clone());
                blocks.push(s.on_describe_ok(&one_web_task("myrepo/app:v1.2.3")));
            }
            Action::ExitOk => break,
            _ => panic!("unexpected action"),
        }
    }
    assert_eq!(described, vec![String::from("arn-1"), String::from("arn-2")]);
    assert_eq!(blocks.len(), 2);
    assert!(blocks[0].contains("--task arn-1"));
    assert!(blocks[1].contains("--task arn-2"));
    assert!(blocks[0].contains("Running image Tag: v1.2.3"));
}

#[test]
fn describe_block_reports_placeholder_without_colon() {
    let mut s = fresh_session();
    s.on_list_ok(vec![String::from("arn-1")]);
    let block = match s.next_action() {
        Action::CallDescribe(_) => s.on_describe_ok(&one_web_task("myrepo/app")),
        _ => panic!("expected a describe action"),
    };
    assert!(block.contains("Image Tag: Not found or using 'latest'"));
}

#[test]
fn list_failure_exits_without_describe() {
    let mut s = fresh_session();
    assert!(matches!(s.next_action(), Action::CallList));
    s.on_list_err();
    assert!(matches!(s.next_action(), Action::ExitErr));
}

#[test]
fn describe_failure_aborts_remaining_tasks() {
    let mut s = fresh_session();
    s.on_list_ok(vec![String::from("arn-1"), String::from("arn-2")]);
    assert!(matches!(s.next_action(), Action::CallDescribe(_)));
    s.on_describe_err();
    assert!(matches!(s.next_action(), Action::ExitErr));
}
