use versust::{into_job, Job, JobFn};

#[test]
fn into_job_runs_the_closure() {
    let job = into_job(|| "1st job");
    assert_eq!(job.run(), "1st job");
    let captured = vec![1i64, 2, 3];
    let sum = into_job(move || captured.iter().sum::<i64>());
    assert_eq!(sum.run(), 6);
}

#[test]
fn boxed_closure_coerces_to_job() {
    let jobs: Vec<Job<&str>> = vec![
        Box::new(|| "1st job") as Job<&str>,
        into_job(|| "2nd job"),
    ];
    let results: Vec<&str> = jobs.into_iter().map(|j| j.run()).collect();
    assert_eq!(results, vec!["1st job", "2nd job"]);
}

#[test]
fn job_unit_result() {
    let job: Job<()> = into_job(|| ());
    job.run();
}
