use ecs_jumper::model::Container;
use ecs_jumper::model::TaskDesc;
use ecs_jumper::region::cli_region;
use ecs_jumper::region::resolve_region;
use ecs_jumper::render::render_command;
use ecs_jumper::render::render_containers;
use ecs_jumper::render::render_task_block;
use ecs_jumper::tag::extract_image_tag;

#[test]
fn tag_of_versioned_image() {
    assert_eq!(extract_image_tag("myrepo/app:v1.2.3"), Some("v1.2.3"));
}

#[test]
fn tag_missing_without_colon() {
    assert_eq!(extract_image_tag("myrepo/app"), None);
}

#[test]
fn tag_is_second_colon_field() {
    assert_eq!(extract_image_tag("registry:5000/app"), Some("5000/app"));
    assert_eq!(extract_image_tag("a:b:c"), Some("b"));
}

#[test]
fn tag_empty_after_trailing_colon() {
    assert_eq!(extract_image_tag("app:"), Some(""));
}

#[test]
fn tag_of_empty_reference() {
    assert_eq!(extract_image_tag(""), None);
}

#[test]
fn region_omitted_defaults() {
    let explicit = cli_region(None);
    assert_eq!(explicit, "us-west-2");
    let resolved = resolve_region(Some(explicit), Some(String::from("eu-west-1")));
    assert_eq!(resolved, "us-west-2");
}

#[test]
fn region_explicit_wins() {
    let explicit = cli_region(Some(String::from("eu-central-1")));
    let resolved = resolve_region(Some(explicit), Some(String::from("ap-south-1")));
    assert_eq!(resolved, "eu-central-1");
}

#[test]
fn region_provider_fills_gap() {
    let resolved = resolve_region(None, Some(String::from("ap-south-1")));
    assert_eq!(resolved, "ap-south-1");
}

#[test]
fn region_fixed_fallback() {
    let resolved = resolve_region(None, None);
    assert_eq!(resolved, "us-west-2");
}

#[test]
fn container_report_with_tag() {
    let cs = vec![Container {
        name: Some(String::from("web")),
        image: Some(String::from("myrepo/app:v1.2.3")),
    }];
    let out = render_containers(&cs, "web");
    assert_eq!(
        out,
        "---------------\nContainer Image: myrepo/app:v1.2.3\nRunning image Tag: v1.2.3\n\n"
    );
}

#[test]
fn container_report_without_tag() {
    let cs = vec![Container {
        name: Some(String::from("web")),
        image: Some(String::from("myrepo/app")),
    }];
    let out = render_containers(&cs, "web");
    assert_eq!(
        out,
        "---------------\nContainer Image: myrepo/app\nImage Tag: Not found or using 'latest'\n\n"
    );
}

#[test]
fn container_with_other_name_is_skipped() {
    let cs = vec![Container {
        name: Some(String::from("sidecar")),
        image: Some(String::from("myrepo/app:v1")),
    }];
    assert_eq!(render_containers(&cs, "web"), "");
}

#[test]
fn container_without_name_or_image_is_skipped() {
    let cs = vec![
        Container { name: None, image: Some(String::from("myrepo/app:v1")) },
        Container { name: Some(String::from("web")), image: None },
    ];
    assert_eq!(render_containers(&cs, "web"), "");
}

#[test]
fn matching_containers_reported_in_order() {
    let cs = vec![
        Container {
            name: Some(String::from("web")),
            image: Some(String::from("a:1")),
        },
        Container {
            name: Some(String::from("web")),
            image: Some(String::from("b")),
        },
    ];
    let out = render_containers(&cs, "web");
    assert_eq!(
        out,
        "---------------\nContainer Image: a:1\nRunning image Tag: 1\n\n\
         ---------------\nContainer Image: b\nImage Tag: Not found or using 'latest'\n\n"
    );
}

#[test]
fn command_block_text() {
    let out = render_command("us-west-2", "demo", "arn:aws:ecs:task/1", "web");
    let expected = "aws ecs execute-command \\\n    --region us-west-2 \\\n    --cluster demo \\\n    --task arn:aws:ecs:task/1 \\\n    --container web \\\n    --command \"/bin/bash\" \\\n    --interactive";
    assert_eq!(out, expected);
}

#[test]
fn task_block_joins_reports_and_command() {
    let tasks = vec![TaskDesc {
        containers: vec![Container {
            name: Some(String::from("web")),
            image: Some(String::from("myrepo/app:v1.2.3")),
        }],
    }];
    let out = render_task_block("us-west-2", "demo", "web", "arn-1", &tasks);
    let expected = format!(
        "{}{}{}{}",
        "---------------\nContainer Image: myrepo/app:v1.2.3\nRunning image Tag: v1.2.3\n\n",
        "\n",
        "aws ecs execute-command \\\n    --region us-west-2 \\\n    --cluster demo \\\n    --task arn-1 \\\n    --container web \\\n    --command \"/bin/bash\" \\\n    --interactive",
        "\n\n",
    );
    assert_eq!(out, expected);
}
