//! The page on which the state of the orchestrator can be watched.
use vstd::prelude::*;
use vstd::string::*;

use crate::display::{escape_json_for_script_tag, escaped};
use crate::text::owned;

verus! {

broadcast use {vstd::seq::group_seq_axioms, vstd::string::group_string_axioms};

/// The page up to its style.
pub const PAGE_START: &'static str = "<!doctype html><html lang=\"en\"><head><meta charset=\"utf-8\"><meta name=\"viewport\" content=\"width=device-width, initial-scale=1\"><title>Symphony Todoist Observability</title><style>";

/// The page from its style to the state.
pub const PAGE_BODY: &'static str = "</style></head><body><div class=\"shell\"><section class=\"hero\"><div class=\"card\"><p class=\"eyebrow\">Symphony Observability</p><h1>Todoist Operations Dashboard</h1><p class=\"hero-copy\">Live Todoist-native orchestration state, task metadata, retries, throughput, workflow health, and recent Codex activity for unattended runs.</p><p class=\"meta\">Generated at <span id=\"generated-at\"></span></p><div class=\"link-row\"><a id=\"project-link\" class=\"pill pill-link\" target=\"_blank\" rel=\"noreferrer noopener\"></a><a id=\"dashboard-link\" class=\"pill pill-link\" target=\"_blank\" rel=\"noreferrer noopener\"></a></div></div><div class=\"card\"><div class=\"section-head\"><div><p class=\"eyebrow\">Workflow Health</p><div id=\"workflow-pill\" class=\"pill\"></div></div><div class=\"status-stack\"><span id=\"runtime-status\" class=\"status-chip status-chip-checking\"><span class=\"status-chip-dot\"></span><span id=\"runtime-status-label\">Connecting</span></span><div class=\"actions\"><button id=\"refresh-now\" type=\"button\">Refresh now</button></div></div></div><div id=\"workflow-note\" class=\"workflow-note\"></div><div id=\"workflow-path\" class=\"workflow-note mono\"></div><div id=\"workflow-last-good\" class=\"workflow-note\"></div><div id=\"runtime-status-copy\" class=\"workflow-note\"></div></div></section><section id=\"error-card\" class=\"card section\" hidden><h2>State Unavailable</h2><p id=\"error-message\" class=\"muted\"></p></section><section class=\"grid\"><div class=\"card metric\"><div class=\"label\">Running</div><div id=\"metric-running\" class=\"value\"></div><div class=\"muted\">Active issue sessions.</div></div><div class=\"card metric\"><div class=\"label\">Retrying</div><div id=\"metric-retrying\" class=\"value\"></div><div class=\"muted\">Issues queued for continuation or backoff.</div></div><div class=\"card metric\"><div class=\"label\">Total Tokens</div><div id=\"metric-total-tokens\" class=\"value\"></div><div id=\"metric-token-breakdown\" class=\"muted\"></div></div><div class=\"card metric\"><div class=\"label\">Runtime</div><div id=\"metric-runtime\" class=\"value\" data-base-runtime=\"0\"></div><div id=\"metric-polling\" class=\"muted\"></div></div></section><section class=\"grid throughput-grid\"><div class=\"card metric\"><div class=\"label\">Throughput</div><div id=\"metric-tps\" class=\"value\"></div><div class=\"muted\">Rolling 5-second tokens/sec.</div></div><div class=\"card metric throughput-graph\"><div class=\"label\">10-Minute Graph</div><div id=\"metric-graph\" class=\"graph mono\"></div><div class=\"muted\">Live throughput sparkline.</div></div></section><section class=\"card section\"><div class=\"section-head\"><div><h2>Running Sessions</h2><p class=\"muted\">Active issues, worker host, last known Codex activity, token usage, and workspace location.</p></div></div><table><thead><tr><th>Task</th><th>State</th><th>Session</th><th>Runtime / turns</th><th>Last Activity</th><th>Tokens</th><th>Workspace</th></tr></thead><tbody id=\"running-body\"></tbody></table></section><section class=\"card section\"><div class=\"section-head\"><div><h2>Retry Queue</h2><p class=\"muted\">Pending retries with preferred worker host, workspace affinity, due time, and last known error.</p></div></div><table><thead><tr><th>Issue</th><th>Attempt</th><th>Due At</th><th>Error</th></tr></thead><tbody id=\"retry-body\"></tbody></table></section><section class=\"meta-grid\"><div class=\"card section\"><h2>Codex Rate Limits</h2><pre id=\"rate-limits-json\"></pre></div><div class=\"card section\"><h2>Todoist Budget</h2><pre id=\"todoist-rate-budget-json\"></pre></div><div class=\"card section\"><h2>Polling State</h2><pre id=\"polling-json\"></pre></div></section></div><script id=\"initial-state\" type=\"application/json\">";

/// The page from the state to its script.
pub const PAGE_SCRIPT: &'static str = "</script><script>";

/// The end of the page.
pub const PAGE_END: &'static str = "</script></body></html>";

/// How the page looks.
pub const DASHBOARD_CSS: &'static str = r#"
:root {
  --bg: #f3efe6;
  --panel: #fffaf2;
  --panel-strong: #fffdf8;
  --ink: #1f1b16;
  --muted: #6a6155;
  --accent: #1e6b52;
  --accent-soft: #d9efe6;
  --warn: #9d3d12;
  --warn-soft: #f6dfd4;
  --line: rgba(31, 27, 22, 0.12);
  --shadow: 0 18px 48px rgba(78, 59, 31, 0.08);
}
* { box-sizing: border-box; }
body { margin: 0; font-family: "Avenir Next", "Segoe UI", sans-serif; background: radial-gradient(circle at top left, #fff7e4 0, var(--bg) 42%, #efe6d7 100%); color: var(--ink); }
.shell { max-width: 1320px; margin: 0 auto; padding: 32px 20px 48px; }
.hero { display: grid; grid-template-columns: 1.5fr 1fr; gap: 18px; margin-bottom: 18px; }
.card { background: var(--panel); border: 1px solid var(--line); border-radius: 22px; padding: 22px; box-shadow: var(--shadow); }
.hero h1, h2 { margin: 0 0 8px; font-family: "Iowan Old Style", "Palatino Linotype", Georgia, serif; }
.hero h1 { font-size: 2.2rem; line-height: 1.05; }
.eyebrow { text-transform: uppercase; letter-spacing: 0.12em; font-size: 0.74rem; color: var(--muted); margin: 0 0 12px; }
.hero-copy, .meta, .muted { color: var(--muted); }
.pill { display: inline-flex; align-items: center; gap: 8px; border-radius: 999px; padding: 8px 12px; font-weight: 600; font-size: 0.9rem; }
.pill-ready { background: var(--accent-soft); color: var(--accent); }
.pill-blocked { background: var(--warn-soft); color: var(--warn); }
.pill-link { background: #ece4d4; color: var(--ink); text-decoration: none; }
.status-stack { display: grid; gap: 10px; justify-items: end; }
.status-chip { display: inline-flex; align-items: center; gap: 8px; border-radius: 999px; padding: 8px 12px; font-weight: 600; font-size: 0.9rem; }
.status-chip-dot { width: 10px; height: 10px; border-radius: 999px; background: currentColor; opacity: 0.85; }
.status-chip-online { background: var(--accent-soft); color: var(--accent); }
.status-chip-offline { background: var(--warn-soft); color: var(--warn); }
.status-chip-fallback { background: #ece4d4; color: var(--ink); }
.status-chip-checking { background: #ece4d4; color: var(--ink); }
.grid { display: grid; grid-template-columns: repeat(4, minmax(0, 1fr)); gap: 14px; margin-bottom: 18px; }
.throughput-grid { grid-template-columns: 1fr 3fr; }
.metric .value { font-size: 2rem; font-weight: 700; margin: 10px 0 6px; }
.metric .label { color: var(--muted); font-size: 0.88rem; text-transform: uppercase; letter-spacing: 0.08em; }
.graph { font-size: 1.8rem; line-height: 1; letter-spacing: 0.08em; }
.section { margin-bottom: 18px; }
.section-head { display: flex; justify-content: space-between; gap: 12px; align-items: flex-start; margin-bottom: 14px; }
.actions button, .subtle-button { border: none; border-radius: 999px; padding: 10px 14px; background: var(--ink); color: white; cursor: pointer; font: inherit; }
.subtle-button { padding: 6px 10px; font-size: 0.85rem; }
table { width: 100%; border-collapse: collapse; }
th, td { text-align: left; padding: 12px 10px; border-top: 1px solid var(--line); vertical-align: top; }
th { font-size: 0.78rem; text-transform: uppercase; letter-spacing: 0.08em; color: var(--muted); border-top: none; }
.state { display: inline-block; border-radius: 999px; padding: 5px 10px; font-size: 0.82rem; font-weight: 600; background: #ece4d4; }
.state-in-progress, .state-merging, .state-todo { background: #e8efe9; color: #255b43; }
.state-rework { background: #fff2d6; color: #946200; }
.state-human-review, .state-done { background: #f0e6ff; color: #5f4b8b; }
.activity-event { font-weight: 600; }
.activity-message { margin-top: 4px; color: var(--muted); max-width: 40ch; }
.activity-time { margin-top: 6px; color: var(--muted); font-size: 0.82rem; }
.empty { color: var(--muted); padding: 18px 10px; }
.mono, pre { font-family: "SFMono-Regular", Consolas, "Liberation Mono", Menlo, monospace; }
pre { margin: 0; white-space: pre-wrap; word-break: break-word; background: #1f1b16; color: #f8f2e7; border-radius: 16px; padding: 16px; overflow-x: auto; }
.workflow-note { margin-top: 10px; color: var(--muted); font-size: 0.92rem; }
.meta-grid { display: grid; grid-template-columns: repeat(2, minmax(0, 1fr)); gap: 12px; }
.link-row { display: flex; flex-wrap: wrap; gap: 8px; margin-top: 16px; }
.issue-stack, .detail-stack, .token-stack { display: grid; gap: 4px; }
.issue-title { color: var(--muted); max-width: 34ch; }
.issue-links, .issue-meta { display: flex; flex-wrap: wrap; gap: 8px; align-items: center; }
.issue-link { color: var(--accent); text-decoration: none; font-size: 0.88rem; }
.meta-chip { display: inline-flex; align-items: center; gap: 6px; border-radius: 999px; padding: 4px 10px; font-size: 0.8rem; background: #efe6d7; color: var(--ink); }
.meta-chip-muted { background: #f4ede1; color: var(--muted); }
.numeric { font-variant-numeric: tabular-nums; }
@media (max-width: 960px) {
  .hero, .grid, .meta-grid, .throughput-grid { grid-template-columns: 1fr; }
  .section-head { flex-direction: column; }
}
"#;

/// How the page keeps itself up to date.
pub const DASHBOARD_JS: &'static str = r#"
(() => {
  const initialNode = document.getElementById('initial-state');
  let currentState = initialNode ? JSON.parse(initialNode.textContent || '{}') : null;
  let stream;
  let fallbackPolling;
  let clockInterval;

  function escapeHtml(value) {
    return String(value ?? '')
      .replaceAll('&', '&amp;')
      .replaceAll('<', '&lt;')
      .replaceAll('>', '&gt;')
      .replaceAll('"', '&quot;')
      .replaceAll("'", '&#39;');
  }

  function formatInt(value) {
    return Number(value || 0).toLocaleString('en-US');
  }

  function formatDuration(seconds) {
    const totalSeconds = Math.max(0, Math.round(Number(seconds || 0)));
    const hours = Math.floor(totalSeconds / 3600);
    const minutes = Math.floor((totalSeconds % 3600) / 60);
    const secs = totalSeconds % 60;
    if (hours > 0) {
      return `${String(hours).padStart(2, '0')}:${String(minutes).padStart(2, '0')}:${String(secs).padStart(2, '0')}`;
    }
    return `${String(minutes).padStart(2, '0')}:${String(secs).padStart(2, '0')}`;
  }

  function slugify(value) {
    return String(value || '').trim().toLowerCase().replace(/[^a-z0-9]+/g, '-');
  }

  function formatTodoistDate(value) {
    if (!value) return '';
    if (typeof value === 'string') return value;
    if (typeof value === 'object') {
      if (value.date && value.string && value.string !== value.date) {
        return `${value.string} (${value.date})`;
      }
      if (value.date) return value.date;
      if (value.string) return value.string;
      if (value.datetime) return value.datetime;
    }
    return '';
  }

  function renderTaskMeta(entry) {
    const parts = [];
    (entry.labels || []).forEach((label) => {
      parts.push(`<span class="meta-chip">${escapeHtml(label)}</span>`);
    });

    const due = formatTodoistDate(entry.due);
    if (due) {
      parts.push(`<span class="meta-chip meta-chip-muted">Due ${escapeHtml(due)}</span>`);
    }

    const deadline = formatTodoistDate(entry.deadline);
    if (deadline) {
      parts.push(`<span class="meta-chip meta-chip-muted">Deadline ${escapeHtml(deadline)}</span>`);
    }

    return parts.length > 0
      ? `<div class="issue-meta">${parts.join('')}</div>`
      : '';
  }

  function updateStatus(mode, label, copy) {
    const badge = document.getElementById('runtime-status');
    const labelNode = document.getElementById('runtime-status-label');
    const copyNode = document.getElementById('runtime-status-copy');
    if (!badge || !labelNode || !copyNode) return;
    badge.className = `status-chip status-chip-${mode}`;
    labelNode.textContent = label;
    copyNode.textContent = copy;
  }

  function renderRunningRows(payload) {
    if (!payload.running || payload.running.length === 0) {
      return '<tr><td colspan="7" class="empty">No active task sessions.</td></tr>';
    }
    return payload.running.map((entry) => {
      const runtime = formatDuration(entry.runtime_seconds);
      const startedAt = entry.started_at || '';
      const lastEventAt = entry.last_event_at || 'n/a';
      const links = [
        `<a class="issue-link" href="/api/v1/${encodeURIComponent(entry.issue_identifier)}">Run JSON</a>`
      ];
      if (entry.url) {
        links.push(`<a class="issue-link" href="${escapeHtml(entry.url)}" target="_blank" rel="noreferrer noopener">Open task</a>`);
      }
      if (entry.project_url) {
        links.push(`<a class="issue-link" href="${escapeHtml(entry.project_url)}" target="_blank" rel="noreferrer noopener">Project board</a>`);
      }
      const sessionButton = entry.session_id
        ? `<button type="button" class="subtle-button" data-copy="${escapeHtml(entry.session_id)}">Copy ID</button>`
        : '<span class="muted">n/a</span>';
      return `<tr>
        <td>
          <div class="issue-stack">
            <span><strong>${escapeHtml(entry.issue_identifier)}</strong></span>
            <span class="issue-title">${escapeHtml(entry.title || 'Untitled task')}</span>
            <span class="muted">Worker: ${escapeHtml(entry.worker_host || 'local')}</span>
            <div class="issue-links">${links.join('')}</div>
            ${renderTaskMeta(entry)}
          </div>
        </td>
        <td><span class="state state-${slugify(entry.state)}">${escapeHtml(entry.state)}</span></td>
        <td>${sessionButton}</td>
        <td class="numeric">
          <span class="runtime-value" data-base-runtime="${Number(entry.runtime_seconds || 0)}" data-started-at="${escapeHtml(startedAt)}">${runtime}</span>
          <div class="muted">${entry.turn_count} turns</div>
        </td>
        <td>
          <div class="detail-stack">
            <span class="activity-event">${escapeHtml(entry.last_event || 'n/a')}</span>
            <span class="activity-message">${escapeHtml(entry.last_message || 'No Codex message yet.')}</span>
            <span class="activity-time mono">${escapeHtml(lastEventAt)}</span>
          </div>
        </td>
        <td class="numeric">
          <div class="token-stack">
            <span>Total: ${formatInt(entry.tokens?.total_tokens)}</span>
            <span class="muted">In ${formatInt(entry.tokens?.input_tokens)} / Out ${formatInt(entry.tokens?.output_tokens)}</span>
          </div>
        </td>
        <td class="mono"><div>${escapeHtml(entry.workspace)}</div><div class="muted">${escapeHtml(entry.worker_host || 'local')}</div></td>
      </tr>`;
    }).join('');
  }

  function renderRetryRows(payload) {
    if (!payload.retrying || payload.retrying.length === 0) {
      return '<tr><td colspan="4" class="empty">Retry queue is empty.</td></tr>';
    }
    return payload.retrying.map((entry) => `<tr>
      <td><strong>${escapeHtml(entry.issue_identifier)}</strong><div class="muted">Worker: ${escapeHtml(entry.worker_host || 'local')}</div>${entry.workspace_location ? `<div class="mono muted">${escapeHtml(entry.workspace_location)}</div>` : ''}</td>
      <td>${entry.attempt}</td>
      <td class="mono">${escapeHtml(entry.due_at)}</td>
      <td>${escapeHtml(entry.error || 'none')}</td>
    </tr>`).join('');
  }

  function applyLinks(payload) {
    const projectLink = document.getElementById('project-link');
    const dashboardLink = document.getElementById('dashboard-link');
    if (projectLink) {
      if (payload.links?.project_url) {
        projectLink.href = payload.links.project_url;
        projectLink.textContent = 'Todoist Board';
        projectLink.style.display = 'inline-flex';
      } else {
        projectLink.style.display = 'none';
      }
    }
    if (dashboardLink) {
      if (payload.links?.dashboard_url) {
        dashboardLink.href = payload.links.dashboard_url;
        dashboardLink.textContent = payload.links.dashboard_url;
        dashboardLink.style.display = 'inline-flex';
      } else {
        dashboardLink.style.display = 'none';
      }
    }
  }

  function applyState(payload) {
    document.getElementById('error-card').hidden = !payload.error;
    document.getElementById('error-message').textContent = payload.error
      ? `${payload.error.code}: ${payload.error.message}`
      : '';
    currentState = payload;
    document.getElementById('generated-at').textContent = payload.generated_at || 'n/a';
    document.getElementById('metric-running').textContent = payload.counts?.running ?? 0;
    document.getElementById('metric-retrying').textContent = payload.counts?.retrying ?? 0;
    document.getElementById('metric-total-tokens').textContent = formatInt(payload.codex_totals?.total_tokens);
    document.getElementById('metric-token-breakdown').textContent =
      `${formatInt(payload.codex_totals?.input_tokens)} input / ${formatInt(payload.codex_totals?.output_tokens)} output`;
    const runtime = document.getElementById('metric-runtime');
    runtime.dataset.baseRuntime = String(Number(payload.codex_totals?.seconds_running || 0));
    runtime.textContent = formatDuration(payload.codex_totals?.seconds_running || 0);
    document.getElementById('metric-polling').textContent =
      payload.polling?.checking
        ? 'Checking now…'
        : `Next poll in ${payload.polling?.next_poll_in_ms != null ? Math.ceil(payload.polling.next_poll_in_ms / 1000) + 's' : 'n/a'}`;
    document.getElementById('metric-tps').textContent = `${Number(payload.throughput?.tps_5s || 0).toFixed(1)} tps`;
    document.getElementById('metric-graph').textContent = payload.throughput?.graph_10m || '';
    document.getElementById('running-body').innerHTML = renderRunningRows(payload);
    document.getElementById('retry-body').innerHTML = renderRetryRows(payload);
    document.getElementById('rate-limits-json').textContent = JSON.stringify(payload.rate_limits ?? 'No rate-limit payload observed yet.', null, 2);
    document.getElementById('todoist-rate-budget-json').textContent = JSON.stringify(payload.todoist_rate_budget ?? 'No Todoist budget observed yet.', null, 2);
    document.getElementById('polling-json').textContent = JSON.stringify(payload.polling ?? {}, null, 2);

    const workflowNote = document.getElementById('workflow-note');
    const workflowPath = document.getElementById('workflow-path');
    const workflowLastGood = document.getElementById('workflow-last-good');
    const workflowPill = document.getElementById('workflow-pill');
    if (workflowPill) {
      const blocked = payload.workflow?.dispatch_status !== 'ready';
      workflowPill.className = `pill ${blocked ? 'pill-blocked' : 'pill-ready'}`;
      workflowPill.textContent = `Dispatch ${payload.workflow?.dispatch_status || 'unknown'}`;
    }
    if (workflowNote) {
      workflowNote.textContent = payload.workflow?.blocking_reason || 'Workflow and dispatch configuration are healthy.';
    }
    if (workflowPath) {
      workflowPath.textContent = payload.workflow?.path || 'n/a';
    }
    if (workflowLastGood) {
      workflowLastGood.textContent = `Using last good config: ${payload.workflow?.using_last_good ? 'yes' : 'no'}`;
    }
    applyLinks(payload);
    bindCopyButtons();
    updateRuntimeClocks();
  }

  function updateRuntimeClocks() {
    if (!currentState?.generated_at) return;
    const generatedAtMs = new Date(currentState.generated_at).getTime();
    const elapsedSeconds = Math.max(0, (Date.now() - generatedAtMs) / 1000);
    const runtime = document.getElementById('metric-runtime');
    if (runtime) {
      const base = Number(runtime.dataset.baseRuntime || '0');
      runtime.textContent = formatDuration(base + elapsedSeconds * Number(currentState.counts?.running || 0));
    }
    document.querySelectorAll('.runtime-value').forEach((node) => {
      const base = Number(node.dataset.baseRuntime || '0');
      node.textContent = formatDuration(base + elapsedSeconds);
    });
  }

  function bindCopyButtons() {
    document.querySelectorAll('[data-copy]').forEach((button) => {
      if (button.dataset.bound === 'true') return;
      button.dataset.bound = 'true';
      button.addEventListener('click', () => {
        navigator.clipboard.writeText(button.dataset.copy || '');
        const label = button.textContent;
        button.textContent = 'Copied';
        window.setTimeout(() => {
          button.textContent = label;
        }, 1200);
      });
    });
  }

  async function fetchState() {
    const response = await fetch('/api/v1/state', { cache: 'no-store' });
    if (!response.ok) throw new Error(`status ${response.status}`);
    const payload = await response.json();
    applyState(payload);
    updateStatus('fallback', 'Polling', 'Streaming unavailable. Falling back to /api/v1/state every 5s.');
  }

  function startFallbackPolling() {
    if (fallbackPolling) return;
    fetchState().catch(() => {
      updateStatus('offline', 'Offline', 'Unable to reach /api/v1/state. Retrying every 5s.');
    });
    fallbackPolling = window.setInterval(() => {
      fetchState().catch(() => {
        updateStatus('offline', 'Offline', 'Unable to reach /api/v1/state. Retrying every 5s.');
      });
    }, 5000);
  }

  function stopFallbackPolling() {
    if (!fallbackPolling) return;
    window.clearInterval(fallbackPolling);
    fallbackPolling = null;
  }

  function handleStreamPayload(event) {
    applyState(JSON.parse(event.data));
    updateStatus('online', 'Live', 'Connected to /api/v1/stream for live updates.');
  }

  function connectStream() {
    if (!window.EventSource) {
      startFallbackPolling();
      return;
    }
    stream = new EventSource('/api/v1/stream');
    stream.onopen = () => {
      stopFallbackPolling();
      updateStatus('online', 'Live', 'Connected to /api/v1/stream for live updates.');
    };
    stream.onmessage = handleStreamPayload;
    stream.addEventListener('state', handleStreamPayload);
    stream.onerror = () => {
      if (stream) {
        stream.close();
        stream = null;
      }
      startFallbackPolling();
    };
  }

  document.getElementById('refresh-now')?.addEventListener('click', async () => {
    try {
      await fetch('/api/v1/refresh', { method: 'POST' });
    } catch (_error) {
      updateStatus('offline', 'Offline', 'Refresh failed. Retrying via live updates.');
    }
  });

  if (currentState) {
    applyState(currentState);
  }
  updateStatus('checking', 'Connecting', 'Connecting to /api/v1/stream…');
  connectStream();
  clockInterval = window.setInterval(updateRuntimeClocks, 1000);
})();
"#;

/// The page with a state, which is JSON.
pub open spec fn page(state: Seq<char>) -> Seq<char> {
    PAGE_START@ + DASHBOARD_CSS@ + PAGE_BODY@ + escaped(state) + PAGE_SCRIPT@ + DASHBOARD_JS@
        + PAGE_END@
}

/// The page with a state, which is JSON.
pub fn render_dashboard_html(state: &str) -> (r: String)
    ensures
        r@ == page(state@),
{
    let initial: String = escape_json_for_script_tag(state);
    let mut out: String = owned(PAGE_START);
    out.append(DASHBOARD_CSS);
    out.append(PAGE_BODY);
    out.append(initial.as_str());
    out.append(PAGE_SCRIPT);
    out.append(DASHBOARD_JS);
    out.append(PAGE_END);
    out
}

} // verus!
