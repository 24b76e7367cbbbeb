//! The intranet's records and the tables the client shows for them.

use vstd::prelude::*;
use vstd::string::StringExecFns;
use vstd::string::StrSliceExecFns;

use crate::table::{
    display_style, format_display, format_display_table, grid_lines, grid_view, list_style, render_table,
    lemma_grid_push, row2, row3, row5, row_view, table_text, text_of,
};
use crate::text::{
    decimal_text, i32_to_decimal, json_quote, json_string, parse_i32, parse_i32_spec, u64_to_decimal,
};

verus! {

/// The text before the first `.` of `s`, or all of `s` when it holds no `.`.
pub open spec fn before_dot(s: Seq<char>) -> Seq<char>
    decreases s.len(),
{
    if s.len() == 0 {
        s
    } else if s[0] == '.' {
        Seq::empty()
    } else {
        seq![s[0]] + before_dot(s.drop_first())
    }
}

proof fn lemma_before_dot_take(s: Seq<char>, k: int)
    requires
        0 <= k <= s.len(),
        forall|j: int| 0 <= j < k ==> s[j] != '.',
        k == s.len() || s[k] == '.',
    ensures
        before_dot(s) == s.take(k),
    decreases k,
{
    if k == 0 {
        assert(s.take(0) =~= Seq::<char>::empty());
    } else {
        let t = s.drop_first();
        assert forall|j: int| 0 <= j < k - 1 implies t[j] != '.' by {
            assert(t[j] == s[j + 1]);
        }
        lemma_before_dot_take(t, k - 1);
        assert(s.take(k) =~= seq![s[0]] + t.take(k - 1));
    }
}

/// The integer part of a number written with a decimal point: the text before
/// the first `.` (the whole text when there is none).
pub fn parce_json_float_to_string(str: &String) -> (s: String)
    ensures
        s@ == before_dot(str@),
{
    let st = str.as_str();
    let len = st.unicode_len();
    let mut i: usize = 0;
    while i < len
        invariant
            len == st@.len(),
            st@ == str@,
            i <= len,
            forall|j: int| 0 <= j < i ==> st@[j] != '.',
        ensures
            i == len || st@[i as int] == '.',
        decreases len - i,
    {
        if st.get_char(i) == '.' {
            break;
        }
        i = i + 1;
    }
    proof {
        lemma_before_dot_take(str@, i as int);
    }
    String::from_str(st.substring_char(0, i))
}

/// A progress bar of ten cells for a percentage: cell `i` is `#` when `10 * i`
/// is below `max`, a space otherwise.
pub open spec fn timeline_bar(max: int) -> Seq<char> {
    Seq::new(10, |i: int| if i * 10 < max { '#' } else { ' ' })
}

/// Draws the progress bar of a percentage written in decimal.
pub fn parce_timeline(nbr: &String) -> (bar: String)
    requires
        parse_i32_spec(nbr@) is Some,
    ensures
        bar@ == timeline_bar(parse_i32_spec(nbr@)->0),
{
    let max: i32 = match parse_i32(nbr.as_str()) {
        Some(v) => v,
        None => 0,
    };
    let mut bar = String::new();
    let mut i: i32 = 0;
    while i < 10
        invariant
            0 <= i <= 10,
            max == parse_i32_spec(nbr@)->0,
            bar@ == timeline_bar(max as int).take(i as int),
        decreases 10 - i,
    {
        proof {
            reveal_strlit("#");
            reveal_strlit(" ");
        }
        if i * 10 < max {
            bar.append("#");
        } else {
            bar.append(" ");
        }
        proof {
            assert(timeline_bar(max as int).take(i + 1) =~= timeline_bar(max as int).take(i as int).push(
                if i * 10 < max { '#' } else { ' ' }));
        }
        i = i + 1;
    }
    proof {
        assert(timeline_bar(max as int).take(10) =~= timeline_bar(max as int));
    }
    bar
}

/// The integer part is a prefix of the text, holds no `.`, is the whole text
/// when that has no `.`, and taking it twice changes nothing.
pub proof fn lemma_before_dot(s: Seq<char>)
    ensures
        before_dot(s).len() <= s.len(),
        before_dot(s) == s.take(before_dot(s).len() as int),
        forall|j: int| 0 <= j < before_dot(s).len() ==> before_dot(s)[j] != '.',
        (forall|j: int| 0 <= j < s.len() ==> s[j] != '.') ==> before_dot(s) == s,
        before_dot(before_dot(s)) == before_dot(s),
    decreases s.len(),
{
    if s.len() > 0 && s[0] != '.' {
        let t = s.drop_first();
        lemma_before_dot(t);
        let b = before_dot(s);
        assert(b == seq![s[0]] + before_dot(t));
        assert(s.take(b.len() as int) =~= seq![s[0]] + t.take(before_dot(t).len() as int));
        assert forall|j: int| 0 <= j < b.len() implies b[j] != '.' by {
            if j > 0 {
                assert(b[j] == before_dot(t)[j - 1]);
            }
        }
        if forall|j: int| 0 <= j < s.len() ==> s[j] != '.' {
            assert forall|j: int| 0 <= j < t.len() implies t[j] != '.' by {
                assert(t[j] == s[j + 1]);
            }
            assert(seq![s[0]] + t =~= s);
        }
        assert(b.drop_first() =~= before_dot(t));
        assert(before_dot(b) == seq![b[0]] + before_dot(b.drop_first()));
    } else if s.len() > 0 {
        assert(s.take(0) =~= Seq::<char>::empty());
    }
}

/// How many of the ten cells of the progress bar of `max` are filled.
pub open spec fn filled_cells(max: int) -> int {
    if max <= 0 {
        0
    } else if max > 90 {
        10
    } else {
        (max + 9) / 10
    }
}

/// The progress bar is its filled cells followed by blanks, one cell per started
/// tenth of the percentage; a larger percentage never fills fewer cells.
pub proof fn lemma_timeline_bar(max: int, larger: int)
    requires
        max <= larger,
    ensures
        0 <= filled_cells(max) <= 10,
        timeline_bar(max) == Seq::new(filled_cells(max) as nat, |i: int| '#')
            + Seq::new((10 - filled_cells(max)) as nat, |i: int| ' '),
        filled_cells(max) <= filled_cells(larger),
{
    let k = filled_cells(max);
    assert forall|i: int| 0 <= i < 10 implies (#[trigger] timeline_bar(max)[i] == '#' <==> i < k) by {
        if 0 < max <= 90 {
            assert(i * 10 < max <==> i < (max + 9) / 10) by (nonlinear_arith)
                requires 0 <= i < 10, 0 < max <= 90;
        }
    }
    assert(timeline_bar(max) =~= Seq::new(k as nat, |i: int| '#') + Seq::new((10 - k) as nat, |i: int| ' '));
    if 0 < max && larger <= 90 {
        assert((max + 9) / 10 <= (larger + 9) / 10) by (nonlinear_arith)
            requires 0 < max <= larger;
    }
}

/// The login data kept in the configuration file.
#[derive(Debug)]
pub struct Pass {
    /// The autologin link of the intranet.
    pub autologin: String,
    /// The Epitech login.
    pub login: String,
    /// The password, stored as its lowercase hexadecimal SHA-512.
    pub passwd: String,
}

/// The JSON text of the login data file.
pub open spec fn pass_json(autologin: Seq<char>, login: Seq<char>, passwd: Seq<char>) -> Seq<char> {
    "{\"autologin\":"@ + json_string(autologin) + ",\"login\":"@ + json_string(login) + ",\"passwd\":"@
        + json_string(passwd) + "}"@
}

impl Pass {
    /// The JSON text written to the login data file.
    pub fn to_json(&self) -> (j: String)
        ensures
            j@ == pass_json(self.autologin@, self.login@, self.passwd@),
            j@ == "{\"autologin\":"@ + json_string(self.autologin@) + ",\"login\":"@ + json_string(self.login@) + ",\"passwd\":"@ + json_string(self.passwd@) + "}"@,
    {
        let mut j = text_of("{\"autologin\":");
        j.append(json_quote(self.autologin.as_str()).as_str());
        j.append(",\"login\":");
        j.append(json_quote(self.login.as_str()).as_str());
        j.append(",\"passwd\":");
        j.append(json_quote(self.passwd.as_str()).as_str());
        j.append("}");
        j
    }
}

/// A grade point average as the intranet writes it.
#[derive(Debug)]
pub struct Gpa {
    pub gpa: String,
}

/// A student's profile.
#[derive(Debug)]
pub struct User {
    pub login: String,
    pub title: String,
    pub scolaryear: String,
    pub promo: i32,
    pub location: String,
    pub gpa: Vec<Gpa>,
}

/// The intranet's home page.
#[derive(Debug)]
pub struct Home {
    pub ip: String,
    pub board: Board,
}

/// The board of the home page: current projects and activities.
#[derive(Debug)]
pub struct Board {
    pub projets: Vec<Projet>,
    pub activites: Vec<Activites>,
}

/// A project on the board.
#[derive(Debug)]
pub struct Projet {
    pub title: String,
    pub title_link: String,
    pub timeline_start: String,
    pub timeline_end: String,
    /// The elapsed part of the project's time, a percentage in decimal.
    pub timeline_barre: String,
    /// The registration date, as the JSON text the intranet sent.
    pub date_inscription: String,
    pub id_activite: String,
}

/// An activity on the board.
#[derive(Debug)]
pub struct Activites {
    pub title: String,
    pub module: String,
    pub module_link: String,
    pub module_code: String,
    pub title_link: String,
    pub timeline_start: String,
    pub timeline_end: String,
    pub timeline_barre: String,
    pub salle: String,
    pub token: String,
    pub token_link: String,
}

/// A module the student is registered to.
#[derive(Debug)]
pub struct Module {
    pub title: String,
    pub date_ins: String,
    pub scolaryear: i32,
    pub grade: String,
    pub credits: i32,
}

/// A mark.
#[derive(Debug)]
pub struct Note {
    pub title: String,
    pub titlemodule: String,
    pub date: String,
    pub scolaryear: i32,
    /// The mark as it is displayed.
    pub final_note: String,
}

/// The modules and marks of a student.
#[derive(Debug)]
pub struct ModulesNotes {
    pub modules: Vec<Module>,
    pub notes: Vec<Note>,
}

/// A file of a project.
#[derive(Debug)]
pub struct Document {
    pub title: String,
    pub fullpath: String,
}

/// The progress of a percentage written with a decimal point can be drawn:
/// its integer part is a valid `i32`.
pub open spec fn timeline_valid(barre: Seq<char>) -> bool {
    parse_i32_spec(before_dot(barre)) is Some
}

/// The timeline cell of a list: `|`, the progress bar, `|`, the integer
/// part of the percentage, `%`.
pub open spec fn timeline_cell(barre: Seq<char>) -> Seq<char> {
    "|"@ + timeline_bar(parse_i32_spec(before_dot(barre))->0) + "|"@ + before_dot(barre) + "%"@
}

/// Whether a timeline percentage can be drawn.
pub fn timeline_is_valid(barre: &String) -> (ok: bool)
    ensures
        ok == timeline_valid(barre@),
{
    let nbr = parce_json_float_to_string(barre);
    match parse_i32(nbr.as_str()) {
        Some(_) => true,
        None => false,
    }
}

/// The timeline cell of a percentage.
pub fn timeline_text(barre: &String) -> (cell: String)
    requires
        timeline_valid(barre@),
    ensures
        cell@ == timeline_cell(barre@),
        cell@ == "|"@ + timeline_bar(parse_i32_spec(before_dot(barre@))->0) + "|"@ + before_dot(barre@) + "%"@,
{
    let nbr = parce_json_float_to_string(barre);
    let bar = parce_timeline(&nbr);
    let mut cell = text_of("|");
    cell.append(bar.as_str());
    cell.append("|");
    cell.append(nbr.as_str());
    cell.append("%");
    cell
}

/// The rows of a profile.
pub open spec fn user_rows(u: User) -> Seq<Seq<Seq<char>>> {
    seq![
        seq!["Name: "@, u.title@],
        seq!["Login: "@, u.login@],
        seq!["Promo: "@, decimal_text(u.promo as int)],
        seq!["Gpa: "@, u.gpa[0].gpa@],
        seq!["Scolaryear: "@, u.scolaryear@],
        seq!["Location: "@, u.location@],
    ]
}

impl User {
    /// The cells of the table of `print`.
    pub fn profile_grid(&self) -> (rows: Vec<Vec<String>>)
        requires
            self.gpa.len() > 0,
        ensures
            grid_view(rows@) == user_rows(*self),
            grid_view(rows@) == seq![
                seq!["Name: "@, self.title@],
                seq!["Login: "@, self.login@],
                seq!["Promo: "@, decimal_text(self.promo as int)],
                seq!["Gpa: "@, self.gpa[0].gpa@],
                seq!["Scolaryear: "@, self.scolaryear@],
                seq!["Location: "@, self.location@],
            ],
    {
        let mut rows: Vec<Vec<String>> = Vec::new();
        rows.push(row2(text_of("Name: "), self.title.clone()));
        rows.push(row2(text_of("Login: "), self.login.clone()));
        rows.push(row2(text_of("Promo: "), i32_to_decimal(self.promo)));
        rows.push(row2(text_of("Gpa: "), self.gpa[0].gpa.clone()));
        rows.push(row2(text_of("Scolaryear: "), self.scolaryear.clone()));
        rows.push(row2(text_of("Location: "), self.location.clone()));
        proof {
            assert(grid_view(rows@) =~= user_rows(*self));
        }
        rows
    }

    /// The profile table, in the detail style. The first GPA is shown.
    pub fn print(&self) -> (text: String)
        requires
            self.gpa.len() > 0,
        ensures
            text@ == table_text(display_style(), grid_lines(user_rows(*self))),
    {
        let rows = self.profile_grid();
        render_table(&format_display(), &rows)
    }
}

/// Every project's timeline can be drawn.
pub open spec fn projects_drawable(b: Board) -> bool {
    forall|i: int| 0 <= i < b.projets.len() ==> timeline_valid(#[trigger] b.projets[i].timeline_barre@)
}

/// Every activity's timeline can be drawn.
pub open spec fn activities_drawable(b: Board) -> bool {
    forall|i: int| 0 <= i < b.activites.len() ==> timeline_valid(#[trigger] b.activites[i].timeline_barre@)
}

/// The row of a project in the project list.
pub open spec fn project_list_row(idx: int, p: Projet) -> Seq<Seq<char>> {
    seq![decimal_text(idx), p.title@, timeline_cell(p.timeline_barre@)]
}

/// The rows of the project list: a header, a rule, one row per project.
pub open spec fn projects_rows(b: Board) -> Seq<Seq<Seq<char>>> {
    seq![
        seq!["ID"@, "PROJECT_NAME"@, "TIMELINE_BARRE"@],
        seq!["--"@, "------------"@, "--------------"@],
    ] + Seq::new(b.projets@.len(), |i: int| project_list_row(i, b.projets[i]))
}

/// The row of an activity in the activity list.
pub open spec fn activity_list_row(idx: int, a: Activites) -> Seq<Seq<char>> {
    seq![decimal_text(idx), a.title@, timeline_cell(a.timeline_barre@)]
}

/// The rows of the activity list: a header, a rule, one row per activity.
pub open spec fn activities_rows(b: Board) -> Seq<Seq<Seq<char>>> {
    seq![
        seq!["ID"@, "ACTIVITY_NAME"@, "TIMELINE_BARRE"@],
        seq!["--"@, "-------------"@, "--------------"@],
    ] + Seq::new(b.activites@.len(), |i: int| activity_list_row(i, b.activites[i]))
}

/// The rows of a project's detail view.
pub open spec fn project_detail_rows(p: Projet, autologin_url: Seq<char>) -> Seq<Seq<Seq<char>>> {
    seq![
        seq!["Title: "@, p.title@],
        seq!["Link: "@, autologin_url + p.title_link@ + "project/"@],
        seq!["Start_Time: "@, p.timeline_start@],
        seq!["End_Time: "@, p.timeline_end@],
        seq!["Time_Barre: "@, timeline_cell(p.timeline_barre@)],
        seq!["Date_inscription: "@, p.date_inscription@],
    ]
}

/// A blank line, then a table.
pub open spec fn after_blank_line(table: Seq<char>) -> Seq<char> {
    "\n"@ + table
}

/// Puts a blank line before a rendered table.
pub fn with_blank_line(table: String) -> (text: String)
    ensures
        text@ == after_blank_line(table@),
        text@ == "\n"@ + table@,
{
    let mut text = text_of("\n");
    text.append(table.as_str());
    text
}

impl Board {
    /// The cells of the table of `print_projects`.
    pub fn projects_grid(&self) -> (rows: Vec<Vec<String>>)
        requires
            projects_drawable(*self),
        ensures
            grid_view(rows@) == projects_rows(*self),
            rows@.len() == self.projets@.len() + 2,
            grid_view(rows@)[0] == seq!["ID"@, "PROJECT_NAME"@, "TIMELINE_BARRE"@],
            grid_view(rows@)[1] == seq!["--"@, "------------"@, "--------------"@],
            forall|i: int| 2 <= i < rows@.len() ==> #[trigger] grid_view(rows@)[i] == seq![decimal_text(i - 2), self.projets[i - 2].title@, "|"@ + timeline_bar(parse_i32_spec(before_dot(self.projets[i - 2].timeline_barre@))->0) + "|"@ + before_dot(self.projets[i - 2].timeline_barre@) + "%"@],
    {
        let mut rows: Vec<Vec<String>> = Vec::new();
        rows.push(row3(text_of("ID"), text_of("PROJECT_NAME"), text_of("TIMELINE_BARRE")));
        rows.push(row3(text_of("--"), text_of("------------"), text_of("--------------")));
        let ghost header = projects_rows(*self).take(2);
        proof {
            assert(grid_view(rows@) =~= header);
        }
        let mut i: usize = 0;
        while i < self.projets.len()
            invariant
                i <= self.projets.len(),
                projects_drawable(*self),
                header == projects_rows(*self).take(2),
                grid_view(rows@) =~= header + Seq::new(i as nat, |k: int| project_list_row(k, self.projets[k])),
            decreases self.projets.len() - i,
        {
            let p = &self.projets[i];
            assert(timeline_valid(self.projets[i as int].timeline_barre@));
            let row = row3(u64_to_decimal(i as u64), p.title.clone(), timeline_text(&p.timeline_barre));
            assert(row_view(row@) == project_list_row(i as int, self.projets[i as int]));
            let ghost before = rows@;
            rows.push(row);
            proof {
                lemma_grid_push(before, row);
                assert(Seq::new((i + 1) as nat, |k: int| project_list_row(k, self.projets[k])) =~= Seq::new(
                    i as nat, |k: int| project_list_row(k, self.projets[k])).push(project_list_row(i as int, self.projets[i as int])));
            }
            i = i + 1;
        }
        proof {
            assert(grid_view(rows@) =~= projects_rows(*self));
        }
        rows
    }

    /// The project list, after a blank line, in the list style.
    pub fn print_projects(&self) -> (text: String)
        requires
            projects_drawable(*self),
        ensures
            text@ == after_blank_line(table_text(list_style(), grid_lines(projects_rows(*self)))),
            text@ == "\n"@ + table_text(list_style(), grid_lines(projects_rows(*self))),
    {
        let rows = self.projects_grid();
        with_blank_line(render_table(&format_display_table(), &rows))
    }

    /// The cells of the table of `print_activity`.
    pub fn activities_grid(&self) -> (rows: Vec<Vec<String>>)
        requires
            activities_drawable(*self),
        ensures
            grid_view(rows@) == activities_rows(*self),
            rows@.len() == self.activites@.len() + 2,
            grid_view(rows@)[0] == seq!["ID"@, "ACTIVITY_NAME"@, "TIMELINE_BARRE"@],
            grid_view(rows@)[1] == seq!["--"@, "-------------"@, "--------------"@],
            forall|i: int| 2 <= i < rows@.len() ==> #[trigger] grid_view(rows@)[i] == seq![decimal_text(i - 2), self.activites[i - 2].title@, "|"@ + timeline_bar(parse_i32_spec(before_dot(self.activites[i - 2].timeline_barre@))->0) + "|"@ + before_dot(self.activites[i - 2].timeline_barre@) + "%"@],
    {
        let mut rows: Vec<Vec<String>> = Vec::new();
        rows.push(row3(text_of("ID"), text_of("ACTIVITY_NAME"), text_of("TIMELINE_BARRE")));
        rows.push(row3(text_of("--"), text_of("-------------"), text_of("--------------")));
        let ghost header = activities_rows(*self).take(2);
        proof {
            assert(grid_view(rows@) =~= header);
        }
        let mut i: usize = 0;
        while i < self.activites.len()
            invariant
                i <= self.activites.len(),
                activities_drawable(*self),
                header == activities_rows(*self).take(2),
                grid_view(rows@) =~= header + Seq::new(i as nat, |k: int| activity_list_row(k, self.activites[k])),
            decreases self.activites.len() - i,
        {
            let a = &self.activites[i];
            assert(timeline_valid(self.activites[i as int].timeline_barre@));
            let row = row3(u64_to_decimal(i as u64), a.title.clone(), timeline_text(&a.timeline_barre));
            assert(row_view(row@) == activity_list_row(i as int, self.activites[i as int]));
            let ghost before = rows@;
            rows.push(row);
            proof {
                lemma_grid_push(before, row);
                assert(Seq::new((i + 1) as nat, |k: int| activity_list_row(k, self.activites[k])) =~= Seq::new(
                    i as nat, |k: int| activity_list_row(k, self.activites[k])).push(activity_list_row(i as int, self.activites[i as int])));
            }
            i = i + 1;
        }
        proof {
            assert(grid_view(rows@) =~= activities_rows(*self));
        }
        rows
    }

    /// The activity list, after a blank line, in the list style.
    pub fn print_activity(&self) -> (text: String)
        requires
            activities_drawable(*self),
        ensures
            text@ == after_blank_line(table_text(list_style(), grid_lines(activities_rows(*self)))),
            text@ == "\n"@ + table_text(list_style(), grid_lines(activities_rows(*self))),
    {
        let rows = self.activities_grid();
        with_blank_line(render_table(&format_display_table(), &rows))
    }

    /// The cells of the table of `print_project_detail`.
    pub fn project_detail_grid(&self, idx: i32, autologin_url: &String) -> (rows: Vec<Vec<String>>)
        requires
            0 <= idx < self.projets.len(),
            timeline_valid(self.projets[idx as int].timeline_barre@),
        ensures
            grid_view(rows@) == project_detail_rows(self.projets[idx as int], autologin_url@),
            grid_view(rows@) == seq![
                seq!["Title: "@, self.projets[idx as int].title@],
                seq!["Link: "@, autologin_url@ + self.projets[idx as int].title_link@ + "project/"@],
                seq!["Start_Time: "@, self.projets[idx as int].timeline_start@],
                seq!["End_Time: "@, self.projets[idx as int].timeline_end@],
                seq!["Time_Barre: "@, "|"@ + timeline_bar(parse_i32_spec(before_dot(self.projets[idx as int].timeline_barre@))->0) + "|"@ + before_dot(self.projets[idx as int].timeline_barre@) + "%"@],
                seq!["Date_inscription: "@, self.projets[idx as int].date_inscription@],
            ],
    {
        let proj = &self.projets[idx as usize];
        let mut link = autologin_url.clone();
        link.append(proj.title_link.as_str());
        link.append("project/");
        let mut rows: Vec<Vec<String>> = Vec::new();
        rows.push(row2(text_of("Title: "), proj.title.clone()));
        rows.push(row2(text_of("Link: "), link));
        rows.push(row2(text_of("Start_Time: "), proj.timeline_start.clone()));
        rows.push(row2(text_of("End_Time: "), proj.timeline_end.clone()));
        rows.push(row2(text_of("Time_Barre: "), timeline_text(&proj.timeline_barre)));
        rows.push(row2(text_of("Date_inscription: "), proj.date_inscription.clone()));
        proof {
            assert(grid_view(rows@) =~= project_detail_rows(self.projets[idx as int], autologin_url@));
        }
        rows
    }

    /// The detail view of project `idx`, in the detail style, with its link
    /// under the autologin URL.
    pub fn print_project_detail(&self, idx: i32, autologin_url: &String) -> (text: String)
        requires
            0 <= idx < self.projets.len(),
            timeline_valid(self.projets[idx as int].timeline_barre@),
        ensures
            text@ == table_text(display_style(), grid_lines(project_detail_rows(self.projets[idx as int], autologin_url@))),
    {
        let rows = self.project_detail_grid(idx, autologin_url);
        render_table(&format_display(), &rows)
    }
}

/// The row of a mark.
pub open spec fn note_row(n: Note) -> Seq<Seq<char>> {
    seq![n.title@, n.titlemodule@, n.date@, decimal_text(n.scolaryear as int), n.final_note@]
}

/// The rows of the mark list: a header, a rule, one row per mark.
pub open spec fn notes_rows(m: ModulesNotes) -> Seq<Seq<Seq<char>>> {
    seq![
        seq!["TITLE"@, "MODULES"@, "DATE"@, "SCOLARYEAR"@, "NOTE"@],
        seq!["-----"@, "-------"@, "----"@, "----------"@, "----"@],
    ] + Seq::new(m.notes@.len(), |i: int| note_row(m.notes[i]))
}

/// The row of a module.
pub open spec fn module_row(m: Module) -> Seq<Seq<char>> {
    seq![m.title@, m.date_ins@, decimal_text(m.scolaryear as int), m.grade@, decimal_text(m.credits as int)]
}

/// The rows of the module list: a header, a rule, one row per module.
pub open spec fn modules_rows(m: ModulesNotes) -> Seq<Seq<Seq<char>>> {
    seq![
        seq!["TITLE"@, "DATE"@, "SCOLARYEAR"@, "GRADE"@, "CREDIT"@],
        seq!["-----"@, "----"@, "----------"@, "-----"@, "------"@],
    ] + Seq::new(m.modules@.len(), |i: int| module_row(m.modules[i]))
}

impl ModulesNotes {
    /// The cells of the table of `print_notes`.
    pub fn notes_grid(&self) -> (rows: Vec<Vec<String>>)
        ensures
            grid_view(rows@) == notes_rows(*self),
            rows@.len() == self.notes@.len() + 2,
            grid_view(rows@)[0] == seq!["TITLE"@, "MODULES"@, "DATE"@, "SCOLARYEAR"@, "NOTE"@],
            grid_view(rows@)[1] == seq!["-----"@, "-------"@, "----"@, "----------"@, "----"@],
            forall|i: int| 2 <= i < rows@.len() ==> #[trigger] grid_view(rows@)[i] == seq![self.notes[i - 2].title@, self.notes[i - 2].titlemodule@, self.notes[i - 2].date@, decimal_text(self.notes[i - 2].scolaryear as int), self.notes[i - 2].final_note@],
    {
        let mut rows: Vec<Vec<String>> = Vec::new();
        rows.push(row5(text_of("TITLE"), text_of("MODULES"), text_of("DATE"), text_of("SCOLARYEAR"), text_of("NOTE")));
        rows.push(row5(text_of("-----"), text_of("-------"), text_of("----"), text_of("----------"), text_of("----")));
        let ghost header = notes_rows(*self).take(2);
        proof {
            assert(grid_view(rows@) =~= header);
        }
        let mut i: usize = 0;
        while i < self.notes.len()
            invariant
                i <= self.notes.len(),
                header == notes_rows(*self).take(2),
                grid_view(rows@) =~= header + Seq::new(i as nat, |k: int| note_row(self.notes[k])),
            decreases self.notes.len() - i,
        {
            let n = &self.notes[i];
            let row = row5(n.title.clone(), n.titlemodule.clone(), n.date.clone(), i32_to_decimal(n.scolaryear), n.final_note.clone());
            assert(row_view(row@) == note_row(self.notes[i as int]));
            let ghost before = rows@;
            rows.push(row);
            proof {
                lemma_grid_push(before, row);
                assert(Seq::new((i + 1) as nat, |k: int| note_row(self.notes[k])) =~= Seq::new(
                    i as nat, |k: int| note_row(self.notes[k])).push(note_row(self.notes[i as int])));
            }
            i = i + 1;
        }
        proof {
            assert(grid_view(rows@) =~= notes_rows(*self));
        }
        rows
    }

    /// The mark list, after a blank line, in the list style.
    pub fn print_notes(&self) -> (text: String)
        ensures
            text@ == after_blank_line(table_text(list_style(), grid_lines(notes_rows(*self)))),
            text@ == "\n"@ + table_text(list_style(), grid_lines(notes_rows(*self))),
    {
        let rows = self.notes_grid();
        with_blank_line(render_table(&format_display_table(), &rows))
    }

    /// The cells of the table of `print_modules`.
    pub fn modules_grid(&self) -> (rows: Vec<Vec<String>>)
        ensures
            grid_view(rows@) == modules_rows(*self),
            rows@.len() == self.modules@.len() + 2,
            grid_view(rows@)[0] == seq!["TITLE"@, "DATE"@, "SCOLARYEAR"@, "GRADE"@, "CREDIT"@],
            grid_view(rows@)[1] == seq!["-----"@, "----"@, "----------"@, "-----"@, "------"@],
            forall|i: int| 2 <= i < rows@.len() ==> #[trigger] grid_view(rows@)[i] == seq![self.modules[i - 2].title@, self.modules[i - 2].date_ins@, decimal_text(self.modules[i - 2].scolaryear as int), self.modules[i - 2].grade@, decimal_text(self.modules[i - 2].credits as int)],
    {
        let mut rows: Vec<Vec<String>> = Vec::new();
        rows.push(row5(text_of("TITLE"), text_of("DATE"), text_of("SCOLARYEAR"), text_of("GRADE"), text_of("CREDIT")));
        rows.push(row5(text_of("-----"), text_of("----"), text_of("----------"), text_of("-----"), text_of("------")));
        let ghost header = modules_rows(*self).take(2);
        proof {
            assert(grid_view(rows@) =~= header);
        }
        let mut i: usize = 0;
        while i < self.modules.len()
            invariant
                i <= self.modules.len(),
                header == modules_rows(*self).take(2),
                grid_view(rows@) =~= header + Seq::new(i as nat, |k: int| module_row(self.modules[k])),
            decreases self.modules.len() - i,
        {
            let m = &self.modules[i];
            let row = row5(m.title.clone(), m.date_ins.clone(), i32_to_decimal(m.scolaryear), m.grade.clone(), i32_to_decimal(m.credits));
            assert(row_view(row@) == module_row(self.modules[i as int]));
            let ghost before = rows@;
            rows.push(row);
            proof {
                lemma_grid_push(before, row);
                assert(Seq::new((i + 1) as nat, |k: int| module_row(self.modules[k])) =~= Seq::new(
                    i as nat, |k: int| module_row(self.modules[k])).push(module_row(self.modules[i as int])));
            }
            i = i + 1;
        }
        proof {
            assert(grid_view(rows@) =~= modules_rows(*self));
        }
        rows
    }

    /// The module list, after a blank line, in the list style.
    pub fn print_modules(&self) -> (text: String)
        ensures
            text@ == after_blank_line(table_text(list_style(), grid_lines(modules_rows(*self)))),
            text@ == "\n"@ + table_text(list_style(), grid_lines(modules_rows(*self))),
    {
        let rows = self.modules_grid();
        with_blank_line(render_table(&format_display_table(), &rows))
    }
}

/// A repository on the repository service.
#[derive(Debug)]
pub struct Repo {
    pub url: String,
    pub uuid: String,
}

/// The repository service's answer to a listing: a message and the
/// repositories by name, no name twice.
#[derive(Debug)]
pub struct Repos {
    message: String,
    repositories: Vec<(String, Repo)>,
}

/// No name occurs twice.
pub open spec fn names_distinct(names: Seq<Seq<char>>) -> bool {
    forall|i: int, j: int| 0 <= i < names.len() && 0 <= j < names.len() && i != j ==> names[i] != names[j]
}

/// The names of named repositories, in order.
pub open spec fn entry_names(entries: Seq<(String, Repo)>) -> Seq<Seq<char>> {
    entries.map_values(|e: (String, Repo)| e.0@)
}

/// The rows of the repository list: a header, a rule, then the index and name
/// of each repository.
pub open spec fn repos_rows(names: Seq<Seq<char>>) -> Seq<Seq<Seq<char>>> {
    seq![seq!["ID"@, "REPO_NAME"@], seq!["--"@, "---------"@]]
        + Seq::new(names.len(), |i: int| seq![decimal_text(i), names[i]])
}

impl Repos {
    #[verifier::type_invariant]
    spec fn distinct(self) -> bool {
        names_distinct(entry_names(self.repositories@))
    }

    /// The repositories with their names, in listing order.
    pub closed spec fn entries(self) -> Seq<(String, Repo)> {
        self.repositories@
    }

    /// The names of the repositories, in listing order.
    pub open spec fn names(self) -> Seq<Seq<char>> {
        entry_names(self.entries())
    }

    /// The message of the answer.
    pub closed spec fn message_view(self) -> Seq<char> {
        self.message@
    }

    /// Builds an answer from a message and named repositories; `None` when a
    /// name occurs twice.
    pub fn new(message: String, repositories: Vec<(String, Repo)>) -> (r: Option<Repos>)
        ensures
            r is Some <==> names_distinct(entry_names(repositories@)),
            r matches Some(x) ==> x.entries() == repositories@ && x.message_view() == message@,
    {
        let n = repositories.len();
        let ghost names = entry_names(repositories@);
        let mut i: usize = 0;
        while i < n
            invariant
                n == repositories@.len(),
                names == entry_names(repositories@),
                i <= n,
                forall|a: int, b: int| 0 <= a < i && 0 <= b < n && a != b ==> names[a] != names[b],
            decreases n - i,
        {
            let mut j: usize = 0;
            while j < n
                invariant
                    n == repositories@.len(),
                    names == entry_names(repositories@),
                    i < n,
                    j <= n,
                    forall|a: int, b: int| 0 <= a < i && 0 <= b < n && a != b ==> names[a] != names[b],
                    forall|b: int| 0 <= b < j && b != i ==> names[i as int] != names[b],
                decreases n - j,
            {
                if j != i && repositories[i].0 == repositories[j].0 {
                    assert(names[i as int] == names[j as int]);
                    return None;
                }
                j = j + 1;
            }
            i = i + 1;
        }
        Some(Repos { message, repositories })
    }

    /// The message of the answer.
    pub fn message(&self) -> (m: &String)
        ensures
            m@ == self.message_view(),
    {
        &self.message
    }

    /// The cells of the table of `print_repos`.
    pub fn repos_grid(&self) -> (rows: Vec<Vec<String>>)
        ensures
            grid_view(rows@) == repos_rows(self.names()),
            rows@.len() == self.entries().len() + 2,
            grid_view(rows@)[0] == seq!["ID"@, "REPO_NAME"@],
            grid_view(rows@)[1] == seq!["--"@, "---------"@],
            forall|i: int| 2 <= i < rows@.len() ==> #[trigger] grid_view(rows@)[i] == seq![decimal_text(i - 2), self.entries()[i - 2].0@],
    {
        let mut rows: Vec<Vec<String>> = Vec::new();
        rows.push(row2(text_of("ID"), text_of("REPO_NAME")));
        rows.push(row2(text_of("--"), text_of("---------")));
        let ghost names = self.names();
        let ghost header = repos_rows(names).take(2);
        proof {
            assert(grid_view(rows@) =~= header);
        }
        let mut i: usize = 0;
        while i < self.repositories.len()
            invariant
                i <= self.repositories.len(),
                names == entry_names(self.repositories@),
                header == repos_rows(names).take(2),
                grid_view(rows@) =~= header + Seq::new(i as nat, |k: int| seq![decimal_text(k), names[k]]),
            decreases self.repositories.len() - i,
        {
            let row = row2(u64_to_decimal(i as u64), self.repositories[i].0.clone());
            assert(row_view(row@) == seq![decimal_text(i as int), names[i as int]]);
            let ghost before = rows@;
            rows.push(row);
            proof {
                lemma_grid_push(before, row);
                assert(Seq::new((i + 1) as nat, |k: int| seq![decimal_text(k), names[k]]) =~= Seq::new(
                    i as nat, |k: int| seq![decimal_text(k), names[k]]).push(seq![decimal_text(i as int), names[i as int]]));
            }
            i = i + 1;
        }
        proof {
            assert(grid_view(rows@) =~= repos_rows(names));
        }
        rows
    }

    /// The repository list in the list style: index and name of each repository.
    pub fn print_repos(&self) -> (text: String)
        ensures
            text@ == table_text(list_style(), grid_lines(repos_rows(self.names()))),
            names_distinct(self.names()),
    {
        proof {
            use_type_invariant(self);
        }
        let rows = self.repos_grid();
        render_table(&format_display_table(), &rows)
    }
}

/// The projects table has its header, its rule, then one row per item in order,
/// row `2 + k` made of the fields of item `k`.
pub proof fn lemma_projects_table_rows(m: Board)
    ensures
        projects_rows(m).len() == m.projets@.len() + 2,
        projects_rows(m)[0] == seq!["ID"@, "PROJECT_NAME"@, "TIMELINE_BARRE"@],
        projects_rows(m)[1] == seq!["--"@, "------------"@, "--------------"@],
        forall|i: int| 2 <= i < projects_rows(m).len() ==> #[trigger] projects_rows(m)[i] == seq![decimal_text(i - 2), m.projets[i - 2].title@, "|"@ + timeline_bar(parse_i32_spec(before_dot(m.projets[i - 2].timeline_barre@))->0) + "|"@ + before_dot(m.projets[i - 2].timeline_barre@) + "%"@],
{
}

/// The activities table has its header, its rule, then one row per item in order,
/// row `2 + k` made of the fields of item `k`.
pub proof fn lemma_activities_table_rows(m: Board)
    ensures
        activities_rows(m).len() == m.activites@.len() + 2,
        activities_rows(m)[0] == seq!["ID"@, "ACTIVITY_NAME"@, "TIMELINE_BARRE"@],
        activities_rows(m)[1] == seq!["--"@, "-------------"@, "--------------"@],
        forall|i: int| 2 <= i < activities_rows(m).len() ==> #[trigger] activities_rows(m)[i] == seq![decimal_text(i - 2), m.activites[i - 2].title@, "|"@ + timeline_bar(parse_i32_spec(before_dot(m.activites[i - 2].timeline_barre@))->0) + "|"@ + before_dot(m.activites[i - 2].timeline_barre@) + "%"@],
{
}

/// The notes table has its header, its rule, then one row per item in order,
/// row `2 + k` made of the fields of item `k`.
pub proof fn lemma_notes_table_rows(m: ModulesNotes)
    ensures
        notes_rows(m).len() == m.notes@.len() + 2,
        notes_rows(m)[0] == seq!["TITLE"@, "MODULES"@, "DATE"@, "SCOLARYEAR"@, "NOTE"@],
        notes_rows(m)[1] == seq!["-----"@, "-------"@, "----"@, "----------"@, "----"@],
        forall|i: int| 2 <= i < notes_rows(m).len() ==> #[trigger] notes_rows(m)[i] == seq![m.notes[i - 2].title@, m.notes[i - 2].titlemodule@, m.notes[i - 2].date@, decimal_text(m.notes[i - 2].scolaryear as int), m.notes[i - 2].final_note@],
{
}

/// The modules table has its header, its rule, then one row per item in order,
/// row `2 + k` made of the fields of item `k`.
pub proof fn lemma_modules_table_rows(m: ModulesNotes)
    ensures
        modules_rows(m).len() == m.modules@.len() + 2,
        modules_rows(m)[0] == seq!["TITLE"@, "DATE"@, "SCOLARYEAR"@, "GRADE"@, "CREDIT"@],
        modules_rows(m)[1] == seq!["-----"@, "----"@, "----------"@, "-----"@, "------"@],
        forall|i: int| 2 <= i < modules_rows(m).len() ==> #[trigger] modules_rows(m)[i] == seq![m.modules[i - 2].title@, m.modules[i - 2].date_ins@, decimal_text(m.modules[i - 2].scolaryear as int), m.modules[i - 2].grade@, decimal_text(m.modules[i - 2].credits as int)],
{
}

/// The repository table has its header, its rule, then row `2 + k` holding `k`
/// and the `k`-th name.
pub proof fn lemma_repos_table_rows(names: Seq<Seq<char>>)
    ensures
        repos_rows(names).len() == names.len() + 2,
        repos_rows(names)[0] == seq!["ID"@, "REPO_NAME"@],
        repos_rows(names)[1] == seq!["--"@, "---------"@],
        forall|i: int| 2 <= i < repos_rows(names).len() ==> #[trigger] repos_rows(names)[i] == seq![decimal_text(i - 2), names[i - 2]],
{
}

/// The profile table shows, in order, the name, login, promotion, first GPA,
/// school year and location of the user, each after its label.
pub proof fn lemma_profile_rows(u: User)
    ensures
        user_rows(u) == seq![
            seq!["Name: "@, u.title@],
            seq!["Login: "@, u.login@],
            seq!["Promo: "@, decimal_text(u.promo as int)],
            seq!["Gpa: "@, u.gpa[0].gpa@],
            seq!["Scolaryear: "@, u.scolaryear@],
            seq!["Location: "@, u.location@],
        ],
{
}

} // verus!
