//! Forwarding yesterday's newspaper articles to the article server.

use vstd::prelude::*;

use crate::handler::get_paper_article_detail::ArticleDetail;
use crate::handler::get_paper_articles::Article;
use crate::handler::{ok_reply, ApiReply, Config};

verus! {

/// The handler that forwards yesterday's newspaper articles.
pub struct PostPaperArticles;

/// Its query: the site the articles are filed under, optional.
pub struct PostPaperArticlesReq {
    pub site_id: Option<u32>,
}

impl Default for PostPaperArticlesReq {
    fn default() -> (r: Self)
        ensures
            r.site_id is None,
    {
        PostPaperArticlesReq { site_id: None }
    }
}

/// What a forwarding run lists and under which site it files the articles.
pub struct PaperSyncPlan {
    /// The site the forwarded articles are filed under.
    pub post_site_id: u32,
    /// The listing: newspaper server, site, status, date range, time offset.
    pub server_url: String,
    pub site_id: u32,
    pub docstatus: Option<u32>,
    pub begin_date: Option<String>,
    pub end_date: Option<String>,
    pub extra: u32,
}

impl PostPaperArticles {
    /// The run for date `yesterday`: the configured site and status, the
    /// articles of that one day, filed under the requested site (default 1;
    /// a missing query counts as one without site).
    pub fn plan(cfg: &Config, prms: Option<PostPaperArticlesReq>, yesterday: &str) -> (r: PaperSyncPlan)
        ensures
            r.post_site_id == (match prms {
                Some(p) => match p.site_id {
                    Some(s) => s,
                    None => 1,
                },
                None => 1,
            }),
            r.server_url == cfg.paper_server_url,
            r.site_id == cfg.site_id,
            r.docstatus == Some(cfg.docstatus),
            r.begin_date matches Some(b) && b@ == yesterday@,
            r.end_date matches Some(e) && e@ == yesterday@,
            r.extra == cfg.timestamp_extra,
    {
        let prms = match prms {
            Some(p) => p,
            None => PostPaperArticlesReq::default(),
        };
        let site_id = match prms.site_id {
            Some(s) => s,
            None => 1,
        };
        PaperSyncPlan {
            post_site_id: site_id,
            server_url: cfg.paper_server_url.clone(),
            site_id: cfg.site_id,
            docstatus: Some(cfg.docstatus),
            begin_date: Some(String::from_str(yesterday)),
            end_date: Some(String::from_str(yesterday)),
            extra: cfg.timestamp_extra,
        }
    }

    /// The reply after a run, whatever happened to the articles: success,
    /// empty message, null data.
    pub fn reply() -> (r: ApiReply<Option<()>>)
        ensures
            r.success,
            r.err_msg@ == ""@,
            r.data is None,
    {
        ok_reply("", None)
    }
}

/// Where a forwarding run stands: what it waits for.
pub enum PaperPhase {
    Start,
    AwaitList,
    AwaitDetail,
    AwaitPost,
    AwaitScore,
    Finished,
}

/// What a forwarding run asks of its environment next.
pub enum PaperSyncAction {
    /// List the articles of the plan.
    FetchArticles,
    /// Read the article with this metadata id in detail.
    FetchDetail(u32),
    /// Post the article read last, `PaperSync::detail`.
    PostArticle,
    /// Post the score of that article, stored under this id.
    PostScore(u32),
    /// Answer the request.
    Reply,
}

/// What the environment reports back; a failure carries its message.
pub enum PaperSyncEvent {
    Started,
    Listed(Result<Vec<Article>, String>),
    Detail(Result<ArticleDetail, String>),
    Posted(Result<u32, String>),
    Scored(Result<(), String>),
}

/// A forwarding run: the articles listed, the current one, and its detail.
pub struct PaperSync {
    pub plan: PaperSyncPlan,
    pub phase: PaperPhase,
    pub articles: Vec<Article>,
    pub idx: usize,
    pub detail: Option<ArticleDetail>,
}

/// The action of a step and the lines it logs.
pub struct PaperStep {
    pub action: PaperSyncAction,
    pub log: Vec<String>,
}

/// Whether `s` is consistent: the current article exists while the run works
/// on it, and its detail exists while it is posted.
pub open spec fn paper_sync_wf(s: PaperSync) -> bool {
    &&& s.idx <= s.articles@.len()
    &&& (s.phase is AwaitDetail || s.phase is AwaitPost || s.phase is AwaitScore) ==> s.idx
        < s.articles@.len()
    &&& (s.phase is AwaitPost || s.phase is AwaitScore) ==> s.detail is Some
}

/// Whether `e` is the report that a run in phase `p` waits for.
pub open spec fn paper_expects(p: PaperPhase, e: PaperSyncEvent) -> bool {
    match p {
        PaperPhase::Start => e is Started,
        PaperPhase::AwaitList => e is Listed,
        PaperPhase::AwaitDetail => e is Detail,
        PaperPhase::AwaitPost => e is Posted,
        PaperPhase::AwaitScore => e is Scored,
        PaperPhase::Finished => false,
    }
}

/// The run `s` goes on with article `k`: it reads its detail, or answers
/// when no article is left.
pub open spec fn at_article(s: PaperSync, action: PaperSyncAction, k: int) -> bool {
    if k < s.articles@.len() {
        &&& s.phase is AwaitDetail
        &&& s.idx == k
        &&& action == PaperSyncAction::FetchDetail(s.articles@[k].metadataid)
    } else {
        s.phase is Finished && action is Reply
    }
}

/// The log is the single line `line`.
pub open spec fn logs_line(log: Seq<String>, line: Seq<char>) -> bool {
    log.len() == 1 && log[0]@ == line
}

/// How far a run is from its end, compared lexicographically: whether the
/// list is still to come, the articles left, and the stage of the current
/// one.
pub open spec fn paper_rank(s: PaperSync) -> (nat, nat, nat) {
    (
        if s.phase is Start {
            2
        } else if s.phase is AwaitList {
            1
        } else {
            0
        },
        if s.phase is Start || s.phase is AwaitList || s.phase is Finished {
            0
        } else {
            (s.articles@.len() - s.idx) as nat
        },
        if s.phase is AwaitDetail {
            2
        } else if s.phase is AwaitPost {
            1
        } else {
            0
        },
    )
}

/// Lexicographic order on ranks.
pub open spec fn paper_rank_lt(a: (nat, nat, nat), b: (nat, nat, nat)) -> bool {
    ||| a.0 < b.0
    ||| a.0 == b.0 && a.1 < b.1
    ||| a.0 == b.0 && a.1 == b.1 && a.2 < b.2
}

fn paper_log(prefix: &str, msg: &str) -> (r: Vec<String>)
    ensures
        logs_line(r@, prefix@ + msg@),
{
    let mut v: Vec<String> = Vec::new();
    v.push(crate::text::concat2(prefix, msg));
    v
}

/// What a step of run `s` does on report `e`, giving `r` and the run `t`.
pub open spec fn paper_event_outcome(s: PaperSync, e: PaperSyncEvent, r: PaperStep, t: PaperSync) -> bool {
    match e {
        PaperSyncEvent::Started => r.action is FetchArticles && logs_line(r.log@, "rth-0"@)
            && t.phase is AwaitList,
        PaperSyncEvent::Listed(Err(e)) => r.action is Reply && logs_line(
            r.log@,
            "get_paper_articles failed: "@ + e@,
        ) && t.phase is Finished,
        PaperSyncEvent::Listed(Ok(list)) => r.log@.len() == 0 && t.articles == list
            && at_article(t, r.action, 0),
        PaperSyncEvent::Detail(Err(e)) => logs_line(
            r.log@,
            "get_paper_article_detail failed: "@ + e@,
        ) && t.articles == s.articles && at_article(
            t,
            r.action,
            s.idx + 1,
        ),
        PaperSyncEvent::Detail(Ok(d)) => r.log@.len() == 0 && r.action is PostArticle
            && t.phase is AwaitPost && t.articles == s.articles
            && t.idx == s.idx && t.detail == Some(d),
        PaperSyncEvent::Posted(Err(e)) => logs_line(
            r.log@,
            "post_paper_article failed: "@ + e@,
        ) && t.articles == s.articles && at_article(
            t,
            r.action,
            s.idx + 1,
        ),
        PaperSyncEvent::Posted(Ok(id)) => r.log@.len() == 0 && r.action
            == PaperSyncAction::PostScore(id) && t.phase is AwaitScore
            && t.articles == s.articles && t.idx == s.idx
            && t.detail == s.detail,
        PaperSyncEvent::Scored(res) => (match res {
            Ok(()) => logs_line(r.log@, "post_paper_score success"@),
            Err(e) => logs_line(r.log@, "post_paper_score failed: "@ + e@),
        }) && t.articles == s.articles && at_article(
            t,
            r.action,
            s.idx + 1,
        ),
    }
}

/// The contract of a step of run `s` on report `e`, giving `r` and the run
/// `t`: `t` is consistent, closer to the end, keeps the plan, and is what the
/// report calls for.
pub open spec fn paper_step_contract(s: PaperSync, e: PaperSyncEvent, r: PaperStep, t: PaperSync) -> bool {
    &&& paper_sync_wf(t)
    &&& paper_rank_lt(paper_rank(t), paper_rank(s))
    &&& t.plan == s.plan
    &&& paper_event_outcome(s, e, r, t)
}

/// Whether `e` reports a failed server call.
pub open spec fn paper_event_failed(e: PaperSyncEvent) -> bool {
    match e {
        PaperSyncEvent::Started => false,
        PaperSyncEvent::Listed(res) => res is Err,
        PaperSyncEvent::Detail(res) => res is Err,
        PaperSyncEvent::Posted(res) => res is Err,
        PaperSyncEvent::Scored(res) => res is Err,
    }
}

/// A newspaper forwarding run always ends in an answer: whatever a server
/// call reports, a failed call is logged and the run goes on with the next
/// article; the run answers exactly when it has finished, and every step
/// brings it closer to that end. (The answer, `PostPaperArticles::reply`, is
/// success with an empty message and null data.)
pub proof fn lemma_paper_run_answers(s: PaperSync, e: PaperSyncEvent, r: PaperStep, t: PaperSync)
    requires
        paper_sync_wf(s),
        paper_expects(s.phase, e),
        paper_step_contract(s, e, r, t),
    ensures
        r.action is Reply <==> t.phase is Finished,
        paper_event_failed(e) ==> r.log@.len() >= 1,
        paper_rank_lt(paper_rank(t), paper_rank(s)),
        paper_sync_wf(t),
        !(t.phase is Start),
{
}

fn paper_line(line: &str) -> (r: Vec<String>)
    ensures
        logs_line(r@, line@),
{
    let mut v: Vec<String> = Vec::new();
    v.push(String::from_str(line));
    v
}

impl PaperSync {
    /// A run of plan `plan` before its start.
    pub fn new(plan: PaperSyncPlan) -> (r: PaperSync)
        ensures
            r.phase is Start,
            r.plan == plan,
            r.articles@.len() == 0,
            r.detail is None,
            paper_sync_wf(r),
    {
        PaperSync { plan, phase: PaperPhase::Start, articles: Vec::new(), idx: 0, detail: None }
    }

    fn enter_article(&mut self, k: usize) -> (action: PaperSyncAction)
        requires
            k <= old(self).articles@.len(),
        ensures
            at_article(*final(self), action, k as int),
            paper_sync_wf(*final(self)),
            final(self).articles == old(self).articles,
            final(self).plan == old(self).plan,
            final(self).detail == old(self).detail,
    {
        self.idx = k;
        if k < self.articles.len() {
            self.phase = PaperPhase::AwaitDetail;
            PaperSyncAction::FetchDetail(self.articles[k].metadataid)
        } else {
            self.phase = PaperPhase::Finished;
            PaperSyncAction::Reply
        }
    }

    fn next_article(&mut self) -> (action: PaperSyncAction)
        requires
            old(self).idx < old(self).articles@.len(),
        ensures
            at_article(*final(self), action, old(self).idx + 1),
            paper_sync_wf(*final(self)),
            final(self).articles == old(self).articles,
            final(self).plan == old(self).plan,
            final(self).detail == old(self).detail,
    {
        let n = self.articles.len();
        assert(self.idx < n);
        let next = self.idx + 1;
        self.enter_article(next)
    }

    /// One step of a forwarding run: it takes the report of the last action
    /// and says what to do next. Every failure of an upstream call is logged
    /// and the run goes on with the next article; every step brings the run
    /// closer to its end.
    pub fn step(&mut self, event: PaperSyncEvent) -> (r: PaperStep)
        requires
            paper_sync_wf(*old(self)),
            paper_expects(old(self).phase, event),
        ensures
            paper_step_contract(*old(self), event, r, *final(self)),
    {
        match event {
            PaperSyncEvent::Started => {
                self.phase = PaperPhase::AwaitList;
                PaperStep { action: PaperSyncAction::FetchArticles, log: paper_line("rth-0") }
            },
            PaperSyncEvent::Listed(Err(e)) => {
                self.phase = PaperPhase::Finished;
                PaperStep {
                    action: PaperSyncAction::Reply,
                    log: paper_log("get_paper_articles failed: ", e.as_str()),
                }
            },
            PaperSyncEvent::Listed(Ok(list)) => {
                self.articles = list;
                self.detail = None;
                let action = self.enter_article(0);
                PaperStep { action, log: Vec::new() }
            },
            PaperSyncEvent::Detail(Err(e)) => {
                let action = self.next_article();
                PaperStep { action, log: paper_log("get_paper_article_detail failed: ", e.as_str()) }
            },
            PaperSyncEvent::Detail(Ok(d)) => {
                self.detail = Some(d);
                self.phase = PaperPhase::AwaitPost;
                PaperStep { action: PaperSyncAction::PostArticle, log: Vec::new() }
            },
            PaperSyncEvent::Posted(Err(e)) => {
                let action = self.next_article();
                PaperStep { action, log: paper_log("post_paper_article failed: ", e.as_str()) }
            },
            PaperSyncEvent::Posted(Ok(id)) => {
                self.phase = PaperPhase::AwaitScore;
                PaperStep { action: PaperSyncAction::PostScore(id), log: Vec::new() }
            },
            PaperSyncEvent::Scored(res) => {
                let log = match res {
                    Ok(()) => paper_line("post_paper_score success"),
                    Err(e) => paper_log("post_paper_score failed: ", e.as_str()),
                };
                let action = self.next_article();
                PaperStep { action, log }
            },
        }
    }
}

} // verus!
