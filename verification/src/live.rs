//! Pipeline planning: from a session descriptor and a source URL to the
//! exact argument lists of the puller and encoder processes, the push
//! address, the optional recording path and the completion message.

use crate::config::PathConfig;
use crate::strutil::{map_safe_title, map_srt_key, safe_title_char, seq_views, srt_key_char};
use crate::time::{current_timestamp, is_fallback_timestamp};
use vstd::prelude::*;
use vstd::string::StrSliceExecFns;
use vstd::string::StringExecFns;

verus! {

/// The per-room session descriptor: pull arguments, push credential and
/// transport mode.
#[derive(Clone)]
pub struct StreamArgs {
    /// Room identity this descriptor belongs to.
    pub room_index: i64,
    /// Extra arguments handed to the puller process, order-significant.
    pub args: Vec<String>,
    /// Push credential; empty means "configured but not launchable".
    pub live_key: String,
    /// Selects the SRT push address format instead of RTMP.
    pub srt: bool,
}

#[verifier::external_type_specification]
#[verifier::external_body]
pub struct ExChild(tokio::process::Child);

/// One running relay: the notification target plus exclusive ownership of
/// both OS process handles.
pub struct LiveBody {
    /// User identity that receives the completion notification.
    pub user: i64,
    /// The puller process.
    pub source: tokio::process::Child,
    /// The encoder process.
    pub ffmpeg: tokio::process::Child,
}

/// The SRT push address for a credential: fixed host and port, with the
/// rewritten credential after `r=live/`.
pub open spec fn srt_address_spec(key: Seq<char>) -> Seq<char> {
    "srt://6721.livepush.myqcloud.com:9000?streamid=#!::h=6721.livepush.myqcloud.com,r=live/"@
        + key.map_values(|c: char| srt_key_char(c))
}

/// The RTMP push address for a credential: the fixed URI prefix with the
/// raw credential appended.
pub open spec fn rtmp_address_spec(key: Seq<char>) -> Seq<char> {
    "rtmp://qqgroup.6721.livepush.ilive.qq.com/trtc_1400526639/"@ + key
}

/// The push address selected by the transport mode.
pub open spec fn push_address_spec(key: Seq<char>, srt: bool) -> Seq<char> {
    if srt {
        srt_address_spec(key)
    } else {
        rtmp_address_spec(key)
    }
}

/// The container format token selected by the transport mode.
pub open spec fn format_token_spec(srt: bool) -> Seq<char> {
    if srt {
        "mpegts"@
    } else {
        "flv"@
    }
}

/// The recording path under a root: the templated subpath holding the
/// title, with a separator added unless the root already ends in one.
pub open spec fn record_path_spec(root: Seq<char>, title: Seq<char>) -> Seq<char> {
    let subpath = "{plugin}/"@ + title + "/{time}.ts"@;
    if root.len() > 0 && root.last() != '/' {
        root + "/"@ + subpath
    } else {
        root + subpath
    }
}

/// The arguments of the puller process: the descriptor's own arguments,
/// the source URL, the fixed quality selector, and either the recording
/// option or plain standard-output mode.
pub open spec fn puller_args_spec(
    args: Seq<Seq<char>>,
    url: Seq<char>,
    record: Option<Seq<char>>,
) -> Seq<Seq<char>> {
    args + seq![url, "best"@] + match record {
        Some(p) => seq!["--record-and-pipe"@, p],
        None => seq!["-O"@],
    }
}

/// The arguments of the encoder process: realtime-paced read from
/// standard input, video copied, audio re-encoded to AAC 44100 Hz at
/// 192 kb/s, error recovery enabled, muxed to the push address.
pub open spec fn encoder_args_spec(key: Seq<char>, srt: bool) -> Seq<Seq<char>> {
    seq![
        "-re"@,
        "-i"@,
        "pipe:0"@,
        "-c:v"@,
        "copy"@,
        "-c:a"@,
        "aac"@,
        "-ar"@,
        "44100"@,
        "-b:a"@,
        "192k"@,
        "-f"@,
        format_token_spec(srt),
        "-drop_pkts_on_overflow"@,
        "1"@,
        "-attempt_recovery"@,
        "1"@,
        "-max_recovery_attempts"@,
        "5"@,
        "-recovery_wait_time"@,
        "1"@,
        push_address_spec(key, srt),
    ]
}

/// The text of the notification sent when a pipeline completes naturally.
pub open spec fn completion_message_spec(title: Seq<char>) -> Seq<char> {
    "\u{63a8}\u{6d41}\u{5df2}\u{7ed3}\u{675f}\u{3002}\n\n\u{5f55}\u{5236}\u{6807}\u{9898}\u{4e3a}\u{ff1a}"@
        + title
}

/// Everything the two processes are started with; handing this plan to
/// the process layer is the only step of `build` that is not pure.
pub struct LaunchPlan {
    /// Program name or path of the puller.
    pub puller_program: String,
    /// Full argument list of the puller.
    pub puller_args: Vec<String>,
    /// Program name or path of the encoder.
    pub encoder_program: String,
    /// Full argument list of the encoder.
    pub encoder_args: Vec<String>,
    /// The resolved, filesystem-safe session title.
    pub title: String,
    /// The recording path, if a recording root is configured.
    pub record_path: Option<String>,
}

impl StreamArgs {
    /// The push address this descriptor streams to.
    pub fn push_address(&self) -> (r: String)
        ensures
            r@ == push_address_spec(self.live_key@, self.srt),
    {
        if self.srt {
            let mut r = String::from_str(
                "srt://6721.livepush.myqcloud.com:9000?streamid=#!::h=6721.livepush.myqcloud.com,r=live/",
            );
            let mapped = map_srt_key(self.live_key.as_str());
            r.append(mapped.as_str());
            r
        } else {
            let mut r = String::from_str("rtmp://qqgroup.6721.livepush.ilive.qq.com/trtc_1400526639/");
            r.append(self.live_key.as_str());
            r
        }
    }

    /// The container format token for this descriptor's transport mode.
    pub fn format_token(&self) -> (r: &'static str)
        ensures
            r@ == format_token_spec(self.srt),
    {
        if self.srt {
            "mpegts"
        } else {
            "flv"
        }
    }
}

/// Resolves the session title: the fetched page title when it holds
/// anything, otherwise the current time; its failure never aborts a
/// launch.
pub fn resolve_title(fetched: &Option<String>) -> (r: String)
    ensures
        (match fetched {
            Some(t) => t@.len() > 0,
            None => false,
        }) ==> r@ == match fetched {
            Some(t) => t@,
            None => Seq::<char>::empty(),
        },
        (match fetched {
            Some(t) => t@.len() == 0,
            None => true,
        }) ==> is_fallback_timestamp(r@),
{
    match fetched {
        Some(t) => {
            if t.as_str().unicode_len() > 0 {
                t.clone()
            } else {
                current_timestamp()
            }
        },
        None => current_timestamp(),
    }
}

/// Joins the recording root and the templated subpath for a title.
pub fn record_path(root: &str, title: &str) -> (r: String)
    ensures
        r@ == record_path_spec(root@, title@),
{
    let n: usize = root.unicode_len();
    let mut r = String::from_str(root);
    if n > 0 && root.get_char(n - 1) != '/' {
        r.append("/");
    }
    r.append("{plugin}/");
    r.append(title);
    r.append("/{time}.ts");
    r
}

/// Renders the completion notification for a finished session.
pub fn completion_message(title: &str) -> (r: String)
    ensures
        r@ == completion_message_spec(title@),
{
    let mut r = String::from_str(
        "\u{63a8}\u{6d41}\u{5df2}\u{7ed3}\u{675f}\u{3002}\n\n\u{5f55}\u{5236}\u{6807}\u{9898}\u{4e3a}\u{ff1a}",
    );
    r.append(title);
    r
}

impl StreamArgs {
    /// The full puller argument list for a source URL and an optional
    /// recording path.
    pub fn puller_args(&self, url: &str, record: &Option<String>) -> (r: Vec<String>)
        ensures
            seq_views(r@) == puller_args_spec(
                seq_views(self.args@),
                url@,
                match record {
                    Some(p) => Some(p@),
                    None => None,
                },
            ),
    {
        let mut r: Vec<String> = Vec::new();
        let mut i: usize = 0;
        while i < self.args.len()
            invariant
                i <= self.args.len(),
                seq_views(r@) == seq_views(self.args@).subrange(0, i as int),
            decreases self.args.len() - i,
        {
            let a = self.args[i].clone();
            let ghost rv = r@;
            r.push(a);
            proof {
                assert(seq_views(rv).len() == rv.len());
                assert(seq_views(self.args@).len() == self.args@.len());
                assert(seq_views(r@) =~= seq_views(self.args@).subrange(0, i + 1));
            }
            i = i + 1;
        }
        proof {
            assert(seq_views(self.args@).subrange(0, self.args.len() as int) =~= seq_views(
                self.args@,
            ));
        }
        r.push(String::from_str(url));
        r.push(String::from_str("best"));
        match record {
            Some(p) => {
                r.push(String::from_str("--record-and-pipe"));
                r.push(p.clone());
                proof {
                    assert(seq_views(r@) =~= puller_args_spec(
                        seq_views(self.args@),
                        url@,
                        Some(p@),
                    ));
                }
            },
            None => {
                r.push(String::from_str("-O"));
                proof {
                    assert(seq_views(r@) =~= puller_args_spec(
                        seq_views(self.args@),
                        url@,
                        None::<Seq<char>>,
                    ));
                }
            },
        }
        r
    }

    /// The full encoder argument list, ending in the push address.
    pub fn encoder_args(&self) -> (r: Vec<String>)
        ensures
            seq_views(r@) == encoder_args_spec(self.live_key@, self.srt),
    {
        let mut r: Vec<String> = Vec::new();
        r.push(String::from_str("-re"));
        r.push(String::from_str("-i"));
        r.push(String::from_str("pipe:0"));
        r.push(String::from_str("-c:v"));
        r.push(String::from_str("copy"));
        r.push(String::from_str("-c:a"));
        r.push(String::from_str("aac"));
        r.push(String::from_str("-ar"));
        r.push(String::from_str("44100"));
        r.push(String::from_str("-b:a"));
        r.push(String::from_str("192k"));
        r.push(String::from_str("-f"));
        let format = if self.srt {
            String::from_str("mpegts")
        } else {
            String::from_str("flv")
        };
        r.push(format);
        r.push(String::from_str("-drop_pkts_on_overflow"));
        r.push(String::from_str("1"));
        r.push(String::from_str("-attempt_recovery"));
        r.push(String::from_str("1"));
        r.push(String::from_str("-max_recovery_attempts"));
        r.push(String::from_str("5"));
        r.push(String::from_str("-recovery_wait_time"));
        r.push(String::from_str("1"));
        r.push(self.push_address());
        proof {
            assert(seq_views(r@) =~= encoder_args_spec(self.live_key@, self.srt));
        }
        r
    }

    /// Plans the whole pipeline launch for a resolved title: programs,
    /// argument lists, recording path. Pure; never fails.
    pub fn build(
        &self,
        url: &str,
        title: &str,
        record_root: &Option<String>,
        paths: &PathConfig,
    ) -> (plan: LaunchPlan)
        ensures
            plan.title@ == title@.map_values(|c: char| safe_title_char(c)),
            plan.puller_program@ == match paths.streamlink {
                Some(ref s) => s@,
                None => "streamlink"@,
            },
            plan.encoder_program@ == match paths.ffmpeg {
                Some(ref s) => s@,
                None => "ffmpeg"@,
            },
            (match record_root {
                Some(ref root) => plan.record_path matches Some(p) && p@ == record_path_spec(
                    root@,
                    plan.title@,
                ),
                None => plan.record_path matches None,
            }),
            seq_views(plan.puller_args@) == puller_args_spec(
                seq_views(self.args@),
                url@,
                match plan.record_path {
                    Some(ref p) => Some(p@),
                    None => None,
                },
            ),
            seq_views(plan.encoder_args@) == encoder_args_spec(self.live_key@, self.srt),
    {
        let title = map_safe_title(title);
        let rec: Option<String> = match record_root {
            Some(root) => Some(record_path(root.as_str(), title.as_str())),
            None => None,
        };
        let puller_args = self.puller_args(url, &rec);
        let encoder_args = self.encoder_args();
        LaunchPlan {
            puller_program: String::from_str(paths.streamlink()),
            puller_args,
            encoder_program: String::from_str(paths.ffmpeg()),
            encoder_args,
            title,
            record_path: rec,
        }
    }
}

} // verus!
