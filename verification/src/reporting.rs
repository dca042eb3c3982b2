//! The text of the execution report (`report.md`), except its floating-point
//! figures (memory sizes and loads).

use vstd::prelude::*;
use crate::hardware::GpuInfo;
use crate::validation::ValidationCheck;

verus! {

/// The character of a decimal digit.
pub open spec fn digit_char(d: nat) -> char {
    (('0' as int) + d) as char
}

/// The decimal numeral of `n`, as `{}` prints an unsigned integer: no sign, no
/// leading zeros.
pub open spec fn decimal_text(n: nat) -> Seq<char>
    decreases n,
{
    if n < 10 {
        seq![digit_char(n)]
    } else {
        decimal_text(n / 10).push(digit_char(n % 10))
    }
}

fn digit(d: u64) -> (r: &'static str)
    requires
        d < 10,
    ensures
        r@ == seq![digit_char(d as nat)],
{
    proof {
        reveal_strlit("0");
        reveal_strlit("1");
        reveal_strlit("2");
        reveal_strlit("3");
        reveal_strlit("4");
        reveal_strlit("5");
        reveal_strlit("6");
        reveal_strlit("7");
        reveal_strlit("8");
        reveal_strlit("9");
    }
    let r = match d {
        0 => "0",
        1 => "1",
        2 => "2",
        3 => "3",
        4 => "4",
        5 => "5",
        6 => "6",
        7 => "7",
        8 => "8",
        _ => "9",
    };
    assert(r@ =~= seq![digit_char(d as nat)]);
    r
}

/// The decimal numeral of `n`.
pub fn decimal(n: u64) -> (r: String)
    ensures
        r@ == decimal_text(n as nat),
    decreases n,
{
    if n < 10 {
        String::from_str(digit(n))
    } else {
        let mut r = decimal(n / 10);
        r.append(digit(n % 10));
        r
    }
}

/// `parts` one after the other.
pub open spec fn concat_texts(parts: Seq<Seq<char>>) -> Seq<char>
    decreases parts.len(),
{
    if parts.len() == 0 {
        seq![]
    } else {
        concat_texts(parts.drop_last()) + parts.last()
    }
}

/// The title block: title, generation time and applied profile.
pub open spec fn header_text(timestamp: Seq<char>, profile: Seq<char>) -> Seq<char> {
    "# Project Obsidian — Execution & Optimization Report\n\n"@ + "**Generated:** "@ + timestamp
        + "\n"@ + "**Applied Profile:** "@ + profile + "\n\n"@
}

/// The title block of the report.
pub fn report_header(timestamp: &str, profile: &str) -> (r: String)
    ensures
        r@ == header_text(timestamp@, profile@),
{
    let mut r = String::from_str("# Project Obsidian — Execution & Optimization Report\n\n");
    r.append("**Generated:** ");
    r.append(timestamp);
    r.append("\n");
    r.append("**Applied Profile:** ");
    r.append(profile);
    r.append("\n\n");
    r
}

/// The start of the baseline section: the operating system and the processor.
pub open spec fn baseline_text(caption: Seq<char>, build: nat, cpu_brand: Seq<char>, cores: nat) -> Seq<char> {
    "## 1. System Baseline\n"@ + "- **OS:** "@ + caption + " (Build "@ + decimal_text(build)
        + ")\n"@ + "- **Processor:** "@ + cpu_brand + " ("@ + decimal_text(cores) + " Cores)\n"@
}

/// The start of the baseline section.
pub fn report_baseline(caption: &str, build: u32, cpu_brand: &str, cores: usize) -> (r: String)
    ensures
        r@ == baseline_text(caption@, build as nat, cpu_brand@, cores as nat),
{
    let mut r = String::from_str("## 1. System Baseline\n");
    r.append("- **OS:** ");
    r.append(caption);
    r.append(" (Build ");
    let b = decimal(build as u64);
    r.append(b.as_str());
    r.append(")\n");
    r.append("- **Processor:** ");
    r.append(cpu_brand);
    r.append(" (");
    let c = decimal(cores as u64);
    r.append(c.as_str());
    r.append(" Cores)\n");
    r
}

/// The line of one graphics adapter.
pub open spec fn gpu_line_text(g: GpuInfo) -> Seq<char> {
    "- **Graphics:** "@ + g.name@ + " (Driver "@ + g.driver_version@ + ")\n"@
}

/// The lines of the graphics adapters, in order.
pub fn report_gpu_lines(gpus: &Vec<GpuInfo>) -> (r: String)
    ensures
        r@ == concat_texts(gpus@.map_values(|g: GpuInfo| gpu_line_text(g))),
{
    let ghost lines = gpus@.map_values(|g: GpuInfo| gpu_line_text(g));
    let mut r = String::new();
    let n = gpus.len();
    assert(lines.take(0) =~= Seq::<Seq<char>>::empty());
    for i in 0..n
        invariant
            n == gpus@.len(),
            lines == gpus@.map_values(|g: GpuInfo| gpu_line_text(g)),
            r@ == concat_texts(lines.take(i as int)),
    {
        assert(lines.take(i + 1).drop_last() =~= lines.take(i as int));
        r.append("- **Graphics:** ");
        r.append(gpus[i].name.as_str());
        r.append(" (Driver ");
        r.append(gpus[i].driver_version.as_str());
        r.append(")\n");
        assert(r@ =~= concat_texts(lines.take(i + 1)));
    }
    assert(lines.take(n as int) =~= lines);
    r
}

/// The table row of one check.
pub open spec fn check_row_text(c: ValidationCheck) -> Seq<char> {
    "| "@ + c.component@ + " | "@ + c.category@ + " | "@ + (if c.passed {
        "HEALTHY"@
    } else {
        "FAILED"@
    }) + " | "@ + c.details@ + " |\n"@
}

/// The validation section: heading, table head, one row per check, blank line.
pub open spec fn validation_text(checks: Seq<ValidationCheck>) -> Seq<char> {
    "## 2. Validation & Subsystem Health\n\n"@ + "| Component | Category | Status | Details |\n"@
        + "| :--- | :--- | :--- | :--- |\n"@ + concat_texts(
        checks.map_values(|c: ValidationCheck| check_row_text(c)),
    ) + "\n"@
}

/// The validation section of the report.
pub fn report_validation(checks: &Vec<ValidationCheck>) -> (r: String)
    ensures
        r@ == validation_text(checks@),
{
    let ghost rows = checks@.map_values(|c: ValidationCheck| check_row_text(c));
    let mut table = String::new();
    let n = checks.len();
    assert(rows.take(0) =~= Seq::<Seq<char>>::empty());
    for i in 0..n
        invariant
            n == checks@.len(),
            rows == checks@.map_values(|c: ValidationCheck| check_row_text(c)),
            table@ == concat_texts(rows.take(i as int)),
    {
        assert(rows.take(i + 1).drop_last() =~= rows.take(i as int));
        let icon = if checks[i].passed {
            "HEALTHY"
        } else {
            "FAILED"
        };
        table.append("| ");
        table.append(checks[i].component.as_str());
        table.append(" | ");
        table.append(checks[i].category.as_str());
        table.append(" | ");
        table.append(icon);
        table.append(" | ");
        table.append(checks[i].details.as_str());
        table.append(" |\n");
        assert(table@ =~= concat_texts(rows.take(i + 1)));
    }
    assert(rows.take(n as int) =~= rows);
    let mut r = String::from_str("## 2. Validation & Subsystem Health\n\n");
    r.append("| Component | Category | Status | Details |\n");
    r.append("| :--- | :--- | :--- | :--- |\n");
    r.append(table.as_str());
    r.append("\n");
    r
}

/// The process and thread lines of the performance section.
pub open spec fn counts_text(processes: nat, threads: nat) -> Seq<char> {
    "- **Active Processes:** "@ + decimal_text(processes) + "\n"@ + "- **Active Threads:** "@
        + decimal_text(threads) + "\n"@
}

/// The process and thread lines of the performance section.
pub fn report_counts(processes: usize, threads: usize) -> (r: String)
    ensures
        r@ == counts_text(processes as nat, threads as nat),
{
    let mut r = String::from_str("- **Active Processes:** ");
    let p = decimal(processes as u64);
    r.append(p.as_str());
    r.append("\n");
    r.append("- **Active Threads:** ");
    let t = decimal(threads as u64);
    r.append(t.as_str());
    r.append("\n");
    r
}

/// The closing section, which tells how to roll the changes back.
pub open spec fn rollback_text() -> Seq<char> {
    "## 4. Rollback Readiness\n\n"@ + "An atomic snapshot has been recorded under `obsidian-state/`.\n"@
        + "To revert any modifications at any time, execute:\n"@
        + "```powershell\nobsidian restore\n# or\n.\\Restore-Obsidian.ps1\n```\n"@
}

/// The closing section of the report.
pub fn report_rollback() -> (r: String)
    ensures
        r@ == rollback_text(),
{
    let mut r = String::from_str("## 4. Rollback Readiness\n\n");
    r.append("An atomic snapshot has been recorded under `obsidian-state/`.\n");
    r.append("To revert any modifications at any time, execute:\n");
    r.append("```powershell\nobsidian restore\n# or\n.\\Restore-Obsidian.ps1\n```\n");
    r
}

proof fn lemma_digit_char_value(d: nat)
    requires
        d < 10,
    ensures
        digit_char(d) as int == '0' as int + d,
        crate::text::is_digit(digit_char(d)),
{
    if d == 0 {
        assert(digit_char(d) == '0');
    } else if d == 1 {
        assert(digit_char(d) == '1');
    } else if d == 2 {
        assert(digit_char(d) == '2');
    } else if d == 3 {
        assert(digit_char(d) == '3');
    } else if d == 4 {
        assert(digit_char(d) == '4');
    } else if d == 5 {
        assert(digit_char(d) == '5');
    } else if d == 6 {
        assert(digit_char(d) == '6');
    } else if d == 7 {
        assert(digit_char(d) == '7');
    } else if d == 8 {
        assert(digit_char(d) == '8');
    } else if d == 9 {
        assert(digit_char(d) == '9');
    }
}

/// The decimal numeral of `n` reads back as `n`: it is made of digits only,
/// has no leading zero (but for `0` itself), and its value is `n`.
pub proof fn law_decimal_text_reads_back(n: nat)
    ensures
        crate::text::all_digits(decimal_text(n)),
        crate::text::decimal_value(decimal_text(n)) == n,
        decimal_text(n).len() > 0,
        n > 0 ==> decimal_text(n)[0] != '0',
        crate::text::parsed_unsigned(decimal_text(n), n) == Some(n),
    decreases n,
{
    if n >= 10 {
        law_decimal_text_reads_back(n / 10);
        let t = decimal_text(n / 10);
        let d = digit_char(n % 10);
        assert(decimal_text(n) == t.push(d));
        assert(t.push(d).drop_last() =~= t);
        lemma_digit_char_value(n % 10);
        assert(t.push(d)[0] == t[0]);
        assert forall|i: int| 0 <= i < t.push(d).len() implies crate::text::is_digit(#[trigger] t.push(d)[i]) by {
            if i < t.len() {
                assert(t.push(d)[i] == t[i]);
            }
        }
    } else {
        let c = digit_char(n);
        lemma_digit_char_value(n);
        assert(decimal_text(n) == seq![c]);
        assert(seq![c].drop_last() =~= Seq::<char>::empty());
        assert(seq![c].last() == c);
        assert(crate::text::decimal_value(Seq::<char>::empty()) == 0);
        assert(crate::text::decimal_value(seq![c]) == crate::text::digit_value(c));
    }
    law_unsigned_of_digits(decimal_text(n), n);
}

proof fn law_unsigned_of_digits(s: Seq<char>, n: nat)
    requires
        s.len() > 0,
        crate::text::all_digits(s),
        crate::text::decimal_value(s) == n,
    ensures
        crate::text::parsed_unsigned(s, n) == Some(n),
{
    assert(s[0] != '+') by {
        assert(crate::text::is_digit(s[0]));
    }
}

/// A row of the validation table marks its check `HEALTHY` when it passed and
/// `FAILED` otherwise, between the component and category and the details.
pub proof fn law_check_row_marks_result(c: ValidationCheck)
    ensures
        c.passed ==> check_row_text(c) == "| "@ + c.component@ + " | "@ + c.category@ + " | "@ + "HEALTHY"@
            + " | "@ + c.details@ + " |\n"@,
        !c.passed ==> check_row_text(c) == "| "@ + c.component@ + " | "@ + c.category@ + " | "@ + "FAILED"@
            + " | "@ + c.details@ + " |\n"@,
{
}

} // verus!
