use epifetch::data::{
    parce_json_float_to_string, parce_timeline, timeline_is_valid, Activites, Board, Gpa, Module,
    ModulesNotes, Note, Projet, Repo, Repos, User,
};
use epifetch::table::{format_display, format_display_table, render_table, TableStyle};
use prettytable::format::{FormatBuilder, LinePosition, LineSeparator, TableFormat};
use prettytable::{Cell, Row, Table};

fn s(x: &str) -> String {
    x.to_string()
}

fn detail_format() -> TableFormat {
    FormatBuilder::new()
        .column_separator(' ')
        .borders(' ')
        .separators(&[LinePosition::Top, LinePosition::Bottom], LineSeparator::new(' ', ' ', ' ', ' '))
        .padding(0, 0)
        .build()
}

fn list_format() -> TableFormat {
    FormatBuilder::new()
        .column_separator('|')
        .borders('|')
        .separators(&[LinePosition::Top, LinePosition::Bottom], LineSeparator::new('-', '+', '+', '+'))
        .padding(2, 2)
        .build()
}

fn expected(format: TableFormat, rows: &[Vec<&str>]) -> String {
    let mut t = Table::new();
    t.set_format(format);
    for r in rows {
        t.add_row(Row::new(r.iter().map(|c| Cell::new(c)).collect()));
    }
    t.to_string()
}

fn projet(title: &str, barre: &str) -> Projet {
    Projet {
        title: s(title),
        title_link: format!("/module/2019/{}/", title),
        timeline_start: s("01/01/2020"),
        timeline_end: s("02/02/2020"),
        timeline_barre: s(barre),
        date_inscription: s("false"),
        id_activite: s("1"),
    }
}

fn activite(title: &str, barre: &str) -> Activites {
    Activites {
        title: s(title),
        module: s("B-PSU"),
        module_link: s("/module/B-PSU"),
        module_code: s("B-PSU-100"),
        title_link: s("/act/1"),
        timeline_start: s("a"),
        timeline_end: s("b"),
        timeline_barre: s(barre),
        salle: s("room"),
        token: s("0"),
        token_link: s("/token"),
    }
}

#[test]
fn integer_part_of_decimal_text() {
    assert_eq!(parce_json_float_to_string(&s("45.67")), "45");
    assert_eq!(parce_json_float_to_string(&s("12")), "12");
    assert_eq!(parce_json_float_to_string(&s(".5")), "");
    assert_eq!(parce_json_float_to_string(&s("1.2.3")), "1");
    assert_eq!(parce_json_float_to_string(&s("")), "");
    let once = parce_json_float_to_string(&s("99.9"));
    assert_eq!(parce_json_float_to_string(&once), once);
}

#[test]
fn progress_bar_cells() {
    assert_eq!(parce_timeline(&s("0")), "          ");
    assert_eq!(parce_timeline(&s("-3")), "          ");
    assert_eq!(parce_timeline(&s("1")), "#         ");
    assert_eq!(parce_timeline(&s("10")), "#         ");
    assert_eq!(parce_timeline(&s("11")), "##        ");
    assert_eq!(parce_timeline(&s("45")), "#####     ");
    assert_eq!(parce_timeline(&s("90")), "######### ");
    assert_eq!(parce_timeline(&s("91")), "##########");
    assert_eq!(parce_timeline(&s("100")), "##########");
    assert_eq!(parce_timeline(&s("250")), "##########");
}

#[test]
fn progress_bar_grows_with_percentage() {
    let mut last = 0;
    for p in -5..120 {
        let bar = parce_timeline(&p.to_string());
        let filled = bar.chars().filter(|c| *c == '#').count();
        assert!(filled >= last);
        assert!(bar.starts_with(&"#".repeat(filled)));
        assert_eq!(bar.chars().count(), 10);
        last = filled;
    }
}

#[test]
fn timeline_validity() {
    assert!(timeline_is_valid(&s("45.3")));
    assert!(timeline_is_valid(&s("0")));
    assert!(!timeline_is_valid(&s("abc")));
    assert!(!timeline_is_valid(&s("")));
    assert!(!timeline_is_valid(&s(".5")));
}

#[test]
fn the_two_styles() {
    let d: TableStyle = format_display();
    assert_eq!((d.column_separator, d.border, d.rule_line, d.padding_left, d.padding_right), (' ', ' ', ' ', 0, 0));
    let l: TableStyle = format_display_table();
    assert_eq!((l.column_separator, l.border, l.rule_line, l.rule_junction), ('|', '|', '-', '+'));
    assert_eq!((l.rule_left, l.rule_right, l.padding_left, l.padding_right), ('+', '+', 2, 2));
}

#[test]
fn render_matches_prettytable() {
    let rows = vec![vec![s("ID"), s("N")], vec![s("0"), s("x")]];
    let text = render_table(&format_display_table(), &rows);
    assert_eq!(text, expected(list_format(), &[vec!["ID", "N"], vec!["0", "x"]]));
    assert!(text.contains("|  ID  |  N  |"));
    assert!(text.contains("+------+-----+"));
}

#[test]
fn user_profile_table() {
    let user = User {
        login: s("jane.doe@epitech.eu"),
        title: s("Jane Doe"),
        scolaryear: s("2019"),
        promo: 2023,
        location: s("FR/PAR"),
        gpa: vec![Gpa { gpa: s("3.10") }, Gpa { gpa: s("2.00") }],
    };
    let text = user.print();
    assert_eq!(
        text,
        expected(
            detail_format(),
            &[
                vec!["Name: ", "Jane Doe"],
                vec!["Login: ", "jane.doe@epitech.eu"],
                vec!["Promo: ", "2023"],
                vec!["Gpa: ", "3.10"],
                vec!["Scolaryear: ", "2019"],
                vec!["Location: ", "FR/PAR"],
            ]
        )
    );
}

#[test]
fn project_list_table() {
    let board = Board { projets: vec![projet("Minishell", "45.67"), projet("Corewar", "100")], activites: vec![] };
    let text = board.print_projects();
    let table = expected(
        list_format(),
        &[
            vec!["ID", "PROJECT_NAME", "TIMELINE_BARRE"],
            vec!["--", "------------", "--------------"],
            vec!["0", "Minishell", "|#####     |45%"],
            vec!["1", "Corewar", "|##########|100%"],
        ],
    );
    assert_eq!(text, format!("\n{}", table));
}

#[test]
fn empty_project_list_has_header() {
    let board = Board { projets: vec![], activites: vec![] };
    let text = board.print_projects();
    assert!(text.starts_with('\n'));
    assert!(text.contains("PROJECT_NAME"));
}

#[test]
fn activity_list_table() {
    let board = Board { projets: vec![], activites: vec![activite("Kick-off", "3.2")] };
    let text = board.print_activity();
    let table = expected(
        list_format(),
        &[
            vec!["ID", "ACTIVITY_NAME", "TIMELINE_BARRE"],
            vec!["--", "-------------", "--------------"],
            vec!["0", "Kick-off", "|#         |3%"],
        ],
    );
    assert_eq!(text, format!("\n{}", table));
}

#[test]
fn project_detail_table() {
    let board = Board { projets: vec![projet("Minishell", "45.67"), projet("Corewar", "9")], activites: vec![] };
    let text = board.print_project_detail(1, &s("https://intra.epitech.eu/auth-xyz"));
    assert_eq!(
        text,
        expected(
            detail_format(),
            &[
                vec!["Title: ", "Corewar"],
                vec!["Link: ", "https://intra.epitech.eu/auth-xyz/module/2019/Corewar/project/"],
                vec!["Start_Time: ", "01/01/2020"],
                vec!["End_Time: ", "02/02/2020"],
                vec!["Time_Barre: ", "|#         |9%"],
                vec!["Date_inscription: ", "false"],
            ]
        )
    );
}

#[test]
fn notes_and_modules_tables() {
    let mn = ModulesNotes {
        modules: vec![Module { title: s("Unix"), date_ins: s("2019-09-01"), scolaryear: 2019, grade: s("A"), credits: 4 }],
        notes: vec![Note {
            title: s("Bootstrap"),
            titlemodule: s("Unix"),
            date: s("2019-10-01"),
            scolaryear: 2019,
            final_note: s("12.5"),
        }],
    };
    let notes = mn.print_notes();
    assert_eq!(
        notes,
        format!(
            "\n{}",
            expected(
                list_format(),
                &[
                    vec!["TITLE", "MODULES", "DATE", "SCOLARYEAR", "NOTE"],
                    vec!["-----", "-------", "----", "----------", "----"],
                    vec!["Bootstrap", "Unix", "2019-10-01", "2019", "12.5"],
                ]
            )
        )
    );
    let modules = mn.print_modules();
    assert_eq!(
        modules,
        format!(
            "\n{}",
            expected(
                list_format(),
                &[
                    vec!["TITLE", "DATE", "SCOLARYEAR", "GRADE", "CREDIT"],
                    vec!["-----", "----", "----------", "-----", "------"],
                    vec!["Unix", "2019-09-01", "2019", "A", "4"],
                ]
            )
        )
    );
}

fn repo() -> Repo {
    Repo { url: s("https://blih.epitech.eu/repository/x"), uuid: s("u") }
}

#[test]
fn repos_refuse_a_name_twice() {
    assert!(Repos::new(s("ok"), vec![(s("a"), repo()), (s("a"), repo())]).is_none());
    assert!(Repos::new(s("ok"), vec![(s("a"), repo()), (s("b"), repo()), (s("a"), repo())]).is_none());
    assert!(Repos::new(s("ok"), vec![]).is_some());
}

#[test]
fn repository_list_table() {
    let repos = Repos::new(s("Listing successful"), vec![(s("psu"), repo()), (s("cpe"), repo())]).unwrap();
    assert_eq!(repos.message(), "Listing successful");
    let text = repos.print_repos();
    assert_eq!(
        text,
        expected(
            list_format(),
            &[vec!["ID", "REPO_NAME"], vec!["--", "---------"], vec!["0", "psu"], vec!["1", "cpe"]]
        )
    );
}

#[test]
fn project_list_cells() {
    let board = Board { projets: vec![projet("Minishell", "45.67")], activites: vec![activite("Kick-off", "0")] };
    assert_eq!(
        board.projects_grid(),
        vec![
            vec![s("ID"), s("PROJECT_NAME"), s("TIMELINE_BARRE")],
            vec![s("--"), s("------------"), s("--------------")],
            vec![s("0"), s("Minishell"), s("|#####     |45%")],
        ]
    );
    assert_eq!(board.activities_grid()[2], vec![s("0"), s("Kick-off"), s("|          |0%")]);
    assert_eq!(board.project_detail_grid(0, &s("U"))[1], vec![s("Link: "), s("U/module/2019/Minishell/project/")]);
}

#[test]
fn profile_and_marks_cells() {
    let user = User {
        login: s("l"),
        title: s("t"),
        scolaryear: s("2020"),
        promo: -1,
        location: s("loc"),
        gpa: vec![Gpa { gpa: s("4.00") }],
    };
    let rows = user.profile_grid();
    assert_eq!(rows.len(), 6);
    assert_eq!(rows[2], vec![s("Promo: "), s("-1")]);
    assert_eq!(rows[3], vec![s("Gpa: "), s("4.00")]);
    let mn = ModulesNotes {
        modules: vec![Module { title: s("M"), date_ins: s("d"), scolaryear: 2018, grade: s("-"), credits: 0 }],
        notes: vec![],
    };
    assert_eq!(mn.modules_grid()[2], vec![s("M"), s("d"), s("2018"), s("-"), s("0")]);
    assert_eq!(mn.notes_grid().len(), 2);
}

#[test]
fn repository_cells() {
    let repos = Repos::new(s("m"), vec![(s("b"), repo()), (s("a"), repo())]).unwrap();
    let rows = repos.repos_grid();
    assert_eq!(rows[2], vec![s("0"), s("b")]);
    assert_eq!(rows[3], vec![s("1"), s("a")]);
}

#[test]
fn cells_keep_their_lines() {
    let crlf = render_table(&format_display_table(), &vec![vec![s("a\r\nb"), s("x\n")]]);
    let lf = render_table(&format_display_table(), &vec![vec![s("a\nb"), s("x")]]);
    assert_eq!(crlf, lf);
    assert_eq!(lf, expected(list_format(), &[vec!["a\nb", "x"]]));
}
