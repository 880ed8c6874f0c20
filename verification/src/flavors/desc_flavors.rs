//! Methods whose least body cannot be read off their schema: what to send
//! is written down here, with a note on where to learn more.

use crate::outside::{json_pretty, pretty_json};
use crate::text::{dashed_lines, write_dashed_lines};
use vstd::prelude::*;

verus! {

/// What is shown of one body: its title, where it has one, and the body on
/// several lines as the option that gives it.
pub open spec fn pattern_text(title: Option<Seq<char>>, pretty: Seq<char>) -> Seq<char> {
    (match title {
        Some(t) => "### "@ + t + "\n"@,
        None => Seq::empty(),
    }) + ("--data '"@ + pretty + "'\n\n"@)
}

/// What is shown of the first `n` bodies, each given as JSON; `None` where
/// one of them is no JSON.
pub open spec fn patterns_text(patterns: Seq<(Option<Seq<char>>, Seq<char>)>, n: nat) -> Option<
    Seq<char>,
>
    decreases n,
{
    if n == 0 || n > patterns.len() {
        Some(Seq::empty())
    } else {
        match (patterns_text(patterns, (n - 1) as nat), json_pretty(patterns[n - 1].1)) {
            (Some(before), Some(pretty)) => Some(
                before + pattern_text(patterns[n - 1].0, pretty),
            ),
            _ => None,
        }
    }
}

/// What is shown of the least bodies of a method and of the notes on them.
pub open spec fn minimum_data_and_notes(
    patterns: Seq<(Option<Seq<char>>, Seq<char>)>,
    notes: Seq<Seq<char>>,
) -> Option<Seq<char>> {
    match patterns_text(patterns, patterns.len()) {
        Some(bodies) => Some(
            "\nminimum_data:\n"@ + bodies + (if notes.len() > 0 {
                "notes:\n"@ + dashed_lines(notes, notes.len())
            } else {
                Seq::empty()
            }),
        ),
        None => None,
    }
}

/// Writes what is shown of the least bodies of a method, each given as
/// JSON with or without a title, and of the notes on them. `None` where
/// one of the bodies is no JSON.
pub fn generate_minimum_data_and_notes(
    data_patterns: &Vec<(Option<&str>, &str)>,
    notes: &Vec<&str>,
) -> (r: Option<String>)
    ensures
        r.deep_view() == minimum_data_and_notes(data_patterns.deep_view(), notes.deep_view()),
{
    let ghost patterns = data_patterns.deep_view();
    let mut bodies = String::new();
    let mut i: usize = 0;
    while i < data_patterns.len()
        invariant
            i <= data_patterns.len(),
            patterns == data_patterns.deep_view(),
            patterns_text(patterns, i as nat) == Some(bodies@),
        decreases data_patterns.len() - i,
    {
        let ghost before = bodies@;
        let title = data_patterns[i].0;
        let data = data_patterns[i].1;
        assert(patterns[i as int] == (title.deep_view(), data@));
        let pretty = match pretty_json(data) {
            Some(p) => p,
            None => {
                proof {
                    lemma_patterns_fail(patterns, i as nat, patterns.len());
                }
                return None;
            },
        };
        match title {
            Some(t) => {
                bodies.append("### ");
                bodies.append(t);
                bodies.append("\n");
            },
            None => {},
        }
        bodies.append("--data '");
        bodies.append(pretty.as_str());
        bodies.append("'\n\n");
        assert(bodies@ =~= before + pattern_text(title.deep_view(), pretty@));
        i += 1;
    }
    let mut output = "\nminimum_data:\n".to_owned();
    output.append(bodies.as_str());
    let ghost listed = notes.deep_view();
    assert(listed.len() == notes.len());
    if notes.len() > 0 {
        let lines = write_dashed_lines(notes);
        output.append("notes:\n");
        output.append(lines.as_str());
    }
    assert(output@ =~= minimum_data_and_notes(patterns, listed)->0);
    Some(output)
}

proof fn lemma_patterns_fail(patterns: Seq<(Option<Seq<char>>, Seq<char>)>, i: nat, n: nat)
    requires
        i < n <= patterns.len(),
        json_pretty(patterns[i as int].1) is None,
    ensures
        patterns_text(patterns, n) is None,
    decreases n,
{
    if n - 1 > i {
        lemma_patterns_fail(patterns, i, (n - 1) as nat);
    }
}

/// The least bodies of the insertion of a BigQuery job.
pub open spec fn bigquery_jobs_insert_text() -> Option<Seq<char>> {
    minimum_data_and_notes(
        seq![
            (
                Some("Pattern (1). Query Job"@),
                "{\"configuration\": {\"query\": {\"query\": \"\"}}}"@,
            ),
            (
                Some("Pattern (2). Load Job"@),
                "{\"configuration\": {\"load\": {\"sourceUris\": [], \"destinationTable\": {\"projectId\": \"\", \"datasetId\": \"\", \"tableId\": \"\"}}}}"@,
            ),
        ],
        seq![
            "You have to pick one from desired job type: query, load, copy, or extract. https://cloud.google.com/bigquery/docs/reference/rest/v2/Job#JobConfiguration"@,
        ],
    )
}

/// The least body of the insertion of a Cloud SQL instance.
pub open spec fn sqladmin_instances_insert_text() -> Option<Seq<char>> {
    minimum_data_and_notes(
        seq![(None, "{\"name\": \"\", \"settings\": {\"tier\": \"\"}}"@)],
        seq!["You can find a valid 'tier' by executing `zg ex sql tiers list`"@],
    )
}

/// The least bodies of the creation of a Kubernetes Engine cluster.
pub open spec fn container_clusters_create_text() -> Option<Seq<char>> {
    minimum_data_and_notes(
        seq![
            (
                Some("Pattern (1). Standard Cluster"@),
                "{\"cluster\": {\"name\": \"\", \"nodePools\": [{\"name\": \"\"}]}}"@,
            ),
            (
                Some("Pattern (2). Autopilot Cluster"@),
                "{\"cluster\": {\"name\": \"\", \"autopilot\": {\"enabled\": true}}}"@,
            ),
        ],
        seq![
            "https://cloud.google.com/kubernetes-engine/docs/reference/rest/v1/projects.locations.clusters#Cluster"@,
        ],
    )
}

/// A job of BigQuery is a query, a load, a copy or an extraction, and its
/// configuration has to say which; the schema does not show it.
pub fn bigquery_jobs_insert() -> (r: Option<String>)
    ensures
        r.deep_view() == bigquery_jobs_insert_text(),
{
    let mut patterns: Vec<(Option<&str>, &str)> = Vec::new();
    patterns.push(
        (Some("Pattern (1). Query Job"), "{\"configuration\": {\"query\": {\"query\": \"\"}}}"),
    );
    patterns.push(
        (
            Some("Pattern (2). Load Job"),
            "{\"configuration\": {\"load\": {\"sourceUris\": [], \"destinationTable\": {\"projectId\": \"\", \"datasetId\": \"\", \"tableId\": \"\"}}}}",
        ),
    );
    let mut notes: Vec<&str> = Vec::new();
    notes.push(
        "You have to pick one from desired job type: query, load, copy, or extract. https://cloud.google.com/bigquery/docs/reference/rest/v2/Job#JobConfiguration",
    );
    assert(patterns.deep_view() =~= seq![
        (
            Some("Pattern (1). Query Job"@),
            "{\"configuration\": {\"query\": {\"query\": \"\"}}}"@,
        ),
        (
            Some("Pattern (2). Load Job"@),
            "{\"configuration\": {\"load\": {\"sourceUris\": [], \"destinationTable\": {\"projectId\": \"\", \"datasetId\": \"\", \"tableId\": \"\"}}}}"@,
        ),
    ]);
    assert(notes.deep_view() =~= seq![
        "You have to pick one from desired job type: query, load, copy, or extract. https://cloud.google.com/bigquery/docs/reference/rest/v2/Job#JobConfiguration"@,
    ]);
    generate_minimum_data_and_notes(&patterns, &notes)
}

/// An instance of Cloud SQL needs a name and a tier; the schema shows
/// neither as required.
pub fn sqladmin_instances_insert() -> (r: Option<String>)
    ensures
        r.deep_view() == sqladmin_instances_insert_text(),
{
    let mut patterns: Vec<(Option<&str>, &str)> = Vec::new();
    patterns.push((None, "{\"name\": \"\", \"settings\": {\"tier\": \"\"}}"));
    let mut notes: Vec<&str> = Vec::new();
    notes.push("You can find a valid 'tier' by executing `zg ex sql tiers list`");
    assert(patterns.deep_view() =~= seq![
        (None, "{\"name\": \"\", \"settings\": {\"tier\": \"\"}}"@),
    ]);
    assert(notes.deep_view() =~= seq![
        "You can find a valid 'tier' by executing `zg ex sql tiers list`"@,
    ]);
    generate_minimum_data_and_notes(&patterns, &notes)
}

/// A cluster of Kubernetes Engine needs node pools, or Autopilot; the
/// schema shows neither as required.
pub fn container_clusters_create() -> (r: Option<String>)
    ensures
        r.deep_view() == container_clusters_create_text(),
{
    let mut patterns: Vec<(Option<&str>, &str)> = Vec::new();
    patterns.push(
        (
            Some("Pattern (1). Standard Cluster"),
            "{\"cluster\": {\"name\": \"\", \"nodePools\": [{\"name\": \"\"}]}}",
        ),
    );
    patterns.push(
        (
            Some("Pattern (2). Autopilot Cluster"),
            "{\"cluster\": {\"name\": \"\", \"autopilot\": {\"enabled\": true}}}",
        ),
    );
    let mut notes: Vec<&str> = Vec::new();
    notes.push(
        "https://cloud.google.com/kubernetes-engine/docs/reference/rest/v1/projects.locations.clusters#Cluster",
    );
    assert(patterns.deep_view() =~= seq![
        (
            Some("Pattern (1). Standard Cluster"@),
            "{\"cluster\": {\"name\": \"\", \"nodePools\": [{\"name\": \"\"}]}}"@,
        ),
        (
            Some("Pattern (2). Autopilot Cluster"@),
            "{\"cluster\": {\"name\": \"\", \"autopilot\": {\"enabled\": true}}}"@,
        ),
    ]);
    assert(notes.deep_view() =~= seq![
        "https://cloud.google.com/kubernetes-engine/docs/reference/rest/v1/projects.locations.clusters#Cluster"@,
    ]);
    generate_minimum_data_and_notes(&patterns, &notes)
}

} // verus!
