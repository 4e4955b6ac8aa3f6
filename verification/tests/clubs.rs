//! Clubs: reading them out of JSON, their defaults and their orderings.

use brawl_api::serde::FromJson;
use brawl_api::{Club, ClubMember, ClubMemberRole, ClubMembers, ClubRanking, ClubType};
use serde_json::Value;

fn json(text: &str) -> Value {
    serde_json::from_str::<Value>(text).unwrap()
}

/// Tests for club deserialization from API-provided JSON.
#[test]
fn club_deser() {
    let club_json_s = r##"{
  "tag": "#GGGGGGG",
  "name": "Club",
  "description": "Brawl Stars club",
  "type": "open",
  "requiredTrophies": 1000,
  "trophies": 60000,
  "members": [
    {
      "tag": "#PPP200JJJ",
      "name": "Member #1",
      "nameColor": "0xffff8afb",
      "role": "vicePresident",
      "trophies": 500
    },
    {
      "tag": "#CCCCCCCCCC",
      "name": "Member #2",
      "nameColor": "0xff1ba5f5",
      "role": "president",
      "trophies": 200
    },
    {
      "tag": "#VVVVVVVVV",
      "name": "Member #3",
      "nameColor": "0xffffff",
      "role": "member",
      "trophies": 8500
    },
    {
      "tag": "#9999999999",
      "name": "Member #4",
      "nameColor": "0xff4ddba2",
      "role": "member",
      "trophies": 20000
    },
    {
      "tag": "#UUUUUU888",
      "name": "Member #5",
      "nameColor": "0xff1ba5f5",
      "role": "senior",
      "trophies": 4500
    },
    {
      "tag": "#JJJJJJJJJ",
      "name": "Member ██▬█",
      "nameColor": "0xff1ba5f5",
      "role": "member",
      "trophies": 26300
    }
  ]
}"##;

    let club: Club = Club::from_json(&serde_json::from_str::<Value>(club_json_s).unwrap()).unwrap();

    assert_eq!(
        club,
        Club {
            tag: String::from("#GGGGGGG"),
            name: String::from("Club"),
            description: Some(String::from("Brawl Stars club")),
            club_type: ClubType::Open,
            required_trophies: 1000,
            trophies: 60000,
            members: ClubMembers {
                items: vec![
                    ClubMember {
                        tag: String::from("#PPP200JJJ"),
                        name: String::from("Member #1"),
                        name_color: 0xffff8afb,
                        role: ClubMemberRole::VicePresident,
                        trophies: 500
                    },
                    ClubMember {
                        tag: String::from("#CCCCCCCCCC"),
                        name: String::from("Member #2"),
                        name_color: 0xff1ba5f5,
                        role: ClubMemberRole::President,
                        trophies: 200
                    },
                    ClubMember {
                        tag: String::from("#VVVVVVVVV"),
                        name: String::from("Member #3"),
                        name_color: 0xffffff,
                        role: ClubMemberRole::Member,
                        trophies: 8500
                    },
                    ClubMember {
                        tag: String::from("#9999999999"),
                        name: String::from("Member #4"),
                        name_color: 0xff4ddba2,
                        role: ClubMemberRole::Member,
                        trophies: 20000
                    },
                    ClubMember {
                        tag: String::from("#UUUUUU888"),
                        name: String::from("Member #5"),
                        name_color: 0xff1ba5f5,
                        role: ClubMemberRole::Senior,
                        trophies: 4500
                    },
                    ClubMember {
                        tag: String::from("#JJJJJJJJJ"),
                        name: String::from("Member ██▬█"),
                        name_color: 0xff1ba5f5,
                        role: ClubMemberRole::Member,
                        trophies: 26300
                    }
                ],
                ..ClubMembers::default()
            }
        }
    );
}

/// Tests for ClubMembers deserialization from API-provided JSON.
#[test]
fn club_members_deser() {
    let cm_json_s = r##"{
  "items": [
    {
      "tag": "#PPP200JJJ",
      "name": "Member #1",
      "nameColor": "0xffff8afb",
      "role": "vicePresident",
      "trophies": 500
    },
    {
      "tag": "#CCCCCCCCCC",
      "name": "Member #2",
      "nameColor": "0xff1ba5f5",
      "role": "president",
      "trophies": 200
    },
    {
      "tag": "#VVVVVVVVV",
      "name": "Member #3",
      "nameColor": "0xffffff",
      "role": "member",
      "trophies": 8500
    },
    {
      "tag": "#9999999999",
      "name": "Member #4",
      "nameColor": "0xff4ddba2",
      "role": "member",
      "trophies": 20000
    },
    {
      "tag": "#UUUUUU888",
      "name": "Member #5",
      "nameColor": "0xff1ba5f5",
      "role": "senior",
      "trophies": 4500
    },
    {
      "tag": "#JJJJJJJJJ",
      "name": "Member ██▬█",
      "nameColor": "0xff1ba5f5",
      "role": "member",
      "trophies": 26300
    }
  ],
  "paging": {
    "cursors": {}
  }
}"##;
    let club_members: ClubMembers =
        ClubMembers::from_json(&serde_json::from_str::<Value>(cm_json_s).unwrap()).unwrap();

    assert_eq!(
        club_members,
        ClubMembers {
            items: vec![
                ClubMember {
                    tag: String::from("#PPP200JJJ"),
                    name: String::from("Member #1"),
                    name_color: 0xffff8afb,
                    role: ClubMemberRole::VicePresident,
                    trophies: 500
                },
                ClubMember {
                    tag: String::from("#CCCCCCCCCC"),
                    name: String::from("Member #2"),
                    name_color: 0xff1ba5f5,
                    role: ClubMemberRole::President,
                    trophies: 200
                },
                ClubMember {
                    tag: String::from("#VVVVVVVVV"),
                    name: String::from("Member #3"),
                    name_color: 0xffffff,
                    role: ClubMemberRole::Member,
                    trophies: 8500
                },
                ClubMember {
                    tag: String::from("#9999999999"),
                    name: String::from("Member #4"),
                    name_color: 0xff4ddba2,
                    role: ClubMemberRole::Member,
                    trophies: 20000
                },
                ClubMember {
                    tag: String::from("#UUUUUU888"),
                    name: String::from("Member #5"),
                    name_color: 0xff1ba5f5,
                    role: ClubMemberRole::Senior,
                    trophies: 4500
                },
                ClubMember {
                    tag: String::from("#JJJJJJJJJ"),
                    name: String::from("Member ██▬█"),
                    name_color: 0xff1ba5f5,
                    role: ClubMemberRole::Member,
                    trophies: 26300
                }
            ],
            ..ClubMembers::default()
        }
    );
}

#[test]
fn an_open_club_with_one_vice_president_reads_as_such() {
    let club = Club::from_json(&json(
        r##"{"type": "open", "requiredTrophies": 1000,
             "members": [{"role": "vicePresident", "nameColor": "0xffff8afb"}]}"##,
    ))
    .unwrap();
    assert_eq!(club.club_type, ClubType::Open);
    assert_eq!(club.required_trophies, 1000);
    assert_eq!(club.members.items.len(), 1);
    let member = &club.members.items[0];
    assert!(member.role > ClubMemberRole::Member);
    assert_eq!(member.name_color, 0xffff8afb);
    assert_eq!(member.name_color, 4294937339);
}

#[test]
fn missing_fields_of_a_club_take_their_defaults() {
    let club = Club::from_json(&json("{}")).unwrap();
    assert_eq!(club, Club::default());
    assert_eq!(club.tag, "");
    assert_eq!(club.description, None);
    assert_eq!(club.trophies, 0);
    assert_eq!(club.club_type, ClubType::Open);
    assert_eq!(club.members, ClubMembers { tag: String::new(), items: vec![] });
    let member = ClubMember::from_json(&json("{\"unknown\": [1, 2]}")).unwrap();
    assert_eq!(member, ClubMember::default());
    assert_eq!(member.name_color, 0xffffff);
    assert_eq!(member.role, ClubMemberRole::Member);
    assert_eq!(ClubMembers::from_json(&json("{}")).unwrap(), ClubMembers::default());
}

#[test]
fn the_members_of_a_club_read_from_an_array_or_an_object() {
    let from_array = Club::from_json(&json("{\"members\": [{\"tag\": \"#A\"}]}")).unwrap();
    let from_object =
        Club::from_json(&json("{\"members\": {\"items\": [{\"tag\": \"#A\"}]}}")).unwrap();
    assert_eq!(from_array, from_object);
    assert_eq!(from_array.members.items.len(), 1);
    assert_eq!(from_array.members.items[0].tag, "#A");
    assert_eq!(from_array.members.tag, "");
    assert_eq!(Club::from_json(&json("{\"members\": 5}")), None);
    assert_eq!(Club::from_json(&json("{\"members\": [5]}")), None);
    assert_eq!(Club::from_json(&json("{\"members\": null}")), None);
}

#[test]
fn a_field_of_the_wrong_kind_fails_the_reading() {
    assert_eq!(Club::from_json(&json("[]")), None);
    assert_eq!(Club::from_json(&json("{\"tag\": 5}")), None);
    assert_eq!(Club::from_json(&json("{\"tag\": null}")), None);
    assert_eq!(Club::from_json(&json("{\"trophies\": -1}")), None);
    assert_eq!(Club::from_json(&json("{\"trophies\": 1.5}")), None);
    assert_eq!(Club::from_json(&json("{\"trophies\": \"1\"}")), None);
    assert_eq!(Club::from_json(&json("{\"type\": \"Open\"}")), None);
    assert_eq!(Club::from_json(&json("{\"type\": 1}")), None);
    assert_eq!(Club::from_json(&json("{\"description\": 1}")), None);
    assert!(Club::from_json(&json("{\"description\": null}")).is_some());
    assert_eq!(ClubMember::from_json(&json("{\"nameColor\": \"white\"}")), None);
    assert_eq!(ClubMember::from_json(&json("{\"nameColor\": -1}")), None);
    assert_eq!(ClubMember::from_json(&json("{\"nameColor\": null}")), None);
    assert_eq!(ClubMember::from_json(&json("{\"role\": \"boss\"}")), None);
}

#[test]
fn a_name_color_reads_from_a_number_or_from_a_string() {
    let read = |text: &str| ClubMember::from_json(&json(text)).unwrap().name_color;
    assert_eq!(read("{\"nameColor\": 255}"), 255);
    assert_eq!(read("{\"nameColor\": \"255\"}"), 255);
    assert_eq!(read("{\"nameColor\": \"0xff\"}"), 255);
    assert_eq!(read("{\"nameColor\": \"0xffffffffffffffff\"}"), u64::MAX);
    assert_eq!(read("{\"nameColor\": 18446744073709551615}"), u64::MAX);
}

#[test]
fn club_types_and_roles_read_from_their_names() {
    let kind = |text: &str| ClubType::from_json(&json(text));
    assert_eq!(kind("\"open\""), Some(ClubType::Open));
    assert_eq!(kind("\"inviteOnly\""), Some(ClubType::InviteOnly));
    assert_eq!(kind("\"closed\""), Some(ClubType::Closed));
    assert_eq!(kind("\"invite_only\""), None);
    let role = |text: &str| ClubMemberRole::from_json(&json(text));
    assert_eq!(role("\"member\""), Some(ClubMemberRole::Member));
    assert_eq!(role("\"senior\""), Some(ClubMemberRole::Senior));
    assert_eq!(role("\"vicePresident\""), Some(ClubMemberRole::VicePresident));
    assert_eq!(role("\"president\""), Some(ClubMemberRole::President));
    assert_eq!(role("\"President\""), None);
    assert_eq!(ClubType::default(), ClubType::Open);
    assert_eq!(ClubMemberRole::default(), ClubMemberRole::Member);
    assert_eq!(ClubType::InviteOnly.name(), "InviteOnly");
    assert_eq!(ClubMemberRole::Senior.name(), "Senior");
}

#[test]
fn roles_are_ordered_by_the_hierarchy() {
    assert!(ClubMemberRole::Member < ClubMemberRole::VicePresident);
    assert!(ClubMemberRole::President > ClubMemberRole::VicePresident);
    assert!(ClubMemberRole::Senior > ClubMemberRole::Member);
    assert!(ClubMemberRole::Member >= ClubMemberRole::Member);
    assert!(ClubMemberRole::Senior < ClubMemberRole::VicePresident);
    assert_eq!(ClubMemberRole::President.rank(), 3);
}

#[test]
fn members_are_ordered_by_their_roles() {
    let member_1 = ClubMember { role: ClubMemberRole::Member, ..ClubMember::default() };
    let member_2 = ClubMember {
        role: ClubMemberRole::VicePresident,
        tag: String::from("#A"),
        ..ClubMember::default()
    };
    assert!(member_1 < member_2);
    assert!(member_2 > member_1);
    let member_3 = ClubMember { trophies: 9000, ..ClubMember::default() };
    assert!(!(member_1 < member_3) && !(member_1 > member_3));
}

#[test]
fn the_better_rank_of_a_club_is_the_greater() {
    let first = ClubRanking { rank: 1, ..ClubRanking::default() };
    let fifth = ClubRanking { rank: 5, ..ClubRanking::default() };
    assert!(first > fifth);
    assert!(fifth < first);
    assert!(first >= ClubRanking { rank: 1, trophies: 3, ..ClubRanking::default() });
    assert_eq!(ClubRanking::default().rank, 1);
}

#[test]
fn a_club_hands_over_its_members() {
    let club = Club::from_json(&json("{\"tag\": \"#C\", \"members\": [{\"tag\": \"#A\"}]}"))
        .unwrap();
    let expected = club.members.clone();
    assert_eq!(ClubMembers::from(club), expected);
}
