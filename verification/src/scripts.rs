//! The JavaScript injected into the WebView before the page loads, kept as
//! literal pieces.
use vstd::prelude::*;
use vstd::string::StringExecFns;

verus! {

pub const PRE_LOAD_SCRIPT: &'static str = r#"
        (function() {
            // Only run MCP injection on main chat pages, not on login/auth pages
            var hostname = window.location.hostname;
            var pathname = window.location.pathname;
            var isLoginPage = pathname.includes('login') || pathname.includes('auth') || pathname.includes('callback') || pathname.includes('oauth');
            
            if (hostname !== 'chat.qwen.ai' || isLoginPage) {
                return;
            }

            try {
                // Default qwen-core MCP server entry
                var qwenCoreEntry = {
                    id: "a1b2c3d4-e5f6-7890-abcd-ef1234567890",
                    name: "qwen-core",
                    description: "Essential tools for file operations, search, and bash execution.",
                    type: "stdio",
                    params: { command: "npx", args: ["-y", "qwen-core"] },
                    enabled: true,
                    default: false,
                    connectionStatus: "available",
                    errorMessage: "",
                    tools: []
                };

                // Read existing MCP servers from localStorage (preserve user-added servers)
                var existing = null;
                try {
                    var raw = localStorage.getItem("LOCAL_MCP_SERVER");
                    if (raw) {
                        existing = JSON.parse(raw);
                        if (!Array.isArray(existing)) existing = null;
                    }
                } catch(e) {
                    existing = null;
                }

                if (existing && existing.length > 0) {
                    // Merge: ensure qwen-core is present, keep all user-added servers
                    var hasQwenCore = false;
                    for (var i = 0; i < existing.length; i++) {
                        if (existing[i].name === "qwen-core") {
                            hasQwenCore = true;
                            // Update qwen-core entry with latest config (preserve enabled state)
                            qwenCoreEntry.enabled = existing[i].enabled !== false;
                            existing[i] = qwenCoreEntry;
                            break;
                        }
                    }
                    if (!hasQwenCore) {
                        existing.unshift(qwenCoreEntry);
                    }
                    localStorage.setItem("LOCAL_MCP_SERVER", JSON.stringify(existing));
                } else {
                    // No existing config — write default with just qwen-core
                    localStorage.setItem("LOCAL_MCP_SERVER", JSON.stringify([qwenCoreEntry]));
                }
            } catch(e) {
                console.error("[PreLoad] MCP config injection failed:", e);
            }
        })();
    "#;

pub const ZOOM_SCRIPT: &'static str = r#"
        (function() {
            let zoomLevel = 1.0;
            const ZOOM_STEP = 0.1;
            const MIN_ZOOM = 0.5;
            const MAX_ZOOM = 2.0;

            document.addEventListener('wheel', function(e) {
                if (e.ctrlKey) {
                    e.preventDefault();
                    if (e.deltaY < 0) {
                        zoomLevel = Math.min(MAX_ZOOM, zoomLevel + ZOOM_STEP);
                    } else {
                        zoomLevel = Math.max(MIN_ZOOM, zoomLevel - ZOOM_STEP);
                    }
                    document.body.style.zoom = zoomLevel;
                }
            }, { passive: false, capture: true });

            document.addEventListener('keydown', function(e) {
                if (e.ctrlKey && (e.key === '+' || e.key === '=')) {
                    e.preventDefault();
                    zoomLevel = Math.min(MAX_ZOOM, zoomLevel + ZOOM_STEP);
                    document.body.style.zoom = zoomLevel;
                }
                if (e.ctrlKey && e.key === '-') {
                    e.preventDefault();
                    zoomLevel = Math.max(MIN_ZOOM, zoomLevel - ZOOM_STEP);
                    document.body.style.zoom = zoomLevel;
                }
                if (e.ctrlKey && (e.key === '0' || e.key === ')')) {
                    e.preventDefault();
                    zoomLevel = 1.0;
                    document.body.style.zoom = zoomLevel;
                }
            });
        })();
    "#;

pub const SETTINGS_SCRIPT_PART_1: &'static str = r##"
        (function() {
            var injected = false;

            function svgIcon(iconId, size) {
                size = size || 20;
                return '<svg width="' + size + '" height="' + size + '" fill="currentColor" aria-hidden="true" focusable="false" style="flex-shrink:0;color:rgb(247,248,252);"><use xlink:href="#' + iconId + '"></use></svg>';
            }

            function injectUpdatesTab() {
                if (injected) return;

                var sidebarContent = document.querySelector('.setting-side-bar-group-content');
                if (!sidebarContent) return;

                var aboutTab = null;
                var items = sidebarContent.querySelectorAll('.setting-side-bar-group-content-item');
                for (var i = 0; i < items.length; i++) {
                    var title = items[i].querySelector('.setting-side-bar-group-content-item-title');
                    if (title && title.textContent.trim() === 'About') {
                        aboutTab = items[i];
                        break;
                    }
                }

                var tab = document.createElement('div');
                tab.id = 'qwen-updates-tab';
                tab.className = 'setting-side-bar-group-content-item';
                tab.setAttribute('data-spm-anchor-id', '');
                tab.innerHTML = '<span role="img" class="anticon">' + svgIcon('icon-line-download-02', 14) + '</span><div class="setting-side-bar-group-content-item-title" data-spm-anchor-id="">Updates</div>';

                if (aboutTab) {
                    sidebarContent.insertBefore(tab, aboutTab);
                } else {
                    sidebarContent.appendChild(tab);
                }

                var panel = document.createElement('div');
                panel.id = 'qwen-updates-panel';
                panel.className = 'qwen-chat-setting-general';
                panel.style.display = 'none';
                panel.innerHTML =
                    '<div class="setting-content-title">' +
                        '<div class="setting-content-title-title">Updates</div>' +
                    '</div>' +
                    '<div id="qwen-update-content" style="max-width:520px;"></div>';

                var mainContent = document.querySelector('.setting-content');
                if (mainContent) {
                    mainContent.appendChild(panel);
                } else {
                    document.body.appendChild(panel);
                }

                tab.onclick = function() {
                    sidebarContent.querySelectorAll('.setting-side-bar-group-content-item').forEach(function(t) {
                        t.classList.remove('selected');
                    });
                    tab.classList.add('selected');

                    var contentArea = document.querySelector('.setting-content');
                    if (contentArea) {
                        contentArea.querySelectorAll(':scope > div').forEach(function(d) {
"##;

pub const SETTINGS_SCRIPT_PART_2: &'static str = r#"                            if (d.id !== 'qwen-updates-panel') d.style.display = 'none';
                        });
                    }

                    panel.style.display = 'block';
                    checkForUpdatesUI();
                };

                var observer = new MutationObserver(function(mutations) {
                    for (var i = 0; i < mutations.length; i++) {
                        var m = mutations[i];
                        if (m.attributeName === 'class' && m.target !== tab) {
                            if (m.target.classList.contains('selected')) {
                                tab.classList.remove('selected');
                                panel.style.display = 'none';
                            }
                        }
                    }
                });

                sidebarContent.querySelectorAll('.setting-side-bar-group-content-item').forEach(function(t) {
                    observer.observe(t, { attributes: true, attributeFilter: ['class'] });
                });

                injected = true;
            }

            function cardStyle() {
                return 'background:rgba(255,255,255,0.03);border:1px solid rgba(255,255,255,0.06);border-radius:12px;padding:24px;margin-bottom:16px;';
            }

            function iconCircleStyle(color) {
                return 'width:48px;height:48px;border-radius:50%;background:' + color + ';display:flex;align-items:center;justify-content:center;margin:0 auto 16px;color:rgb(247,248,252);';
            }

            function progressBarStyle() {
                return 'width:100%;height:6px;background:rgba(255,255,255,0.06);border-radius:3px;overflow:hidden;margin:16px 0 8px;';
            }

            function progressFillStyle(pct) {
                return 'height:100%;width:' + pct + '%;background:rgb(97,92,237);border-radius:3px;transition:width 0.3s cubic-bezier(0.4,0,0.2,1);';
            }

            function btnPrimaryStyle() {
                return 'padding:10px 24px;background:rgb(97,92,237);color:rgb(247,248,252);border:none;border-radius:8px;font-size:14px;font-weight:500;cursor:pointer;height:40px;font-family:inherit;transition:background 0.15s ease,opacity 0.15s ease;';
            }

            function btnSecondaryStyle() {
                return 'padding:10px 24px;background:rgba(255,255,255,0.06);color:rgb(247,248,252);border:1px solid rgba(255,255,255,0.08);border-radius:8px;font-size:14px;font-weight:500;cursor:pointer;height:40px;font-family:inherit;transition:background 0.15s ease;';
            }

            function labelStyle() {
                return 'font-size:14px;font-weight:400;color:rgb(247,248,252);';
            }

            function subtextStyle() {
                return 'font-size:13px;color:rgba(255,255,255,0.45);';
            }

            async function checkForUpdatesUI() {
                var content = document.getElementById('qwen-update-content');
"#;

pub const SETTINGS_SCRIPT_PART_3: &'static str = r#"                if (!content) return;
                content.innerHTML =
                    '<div style="' + cardStyle() + '">' +
                        '<div style="display:flex;align-items:center;gap:12px;">' +
                            '<div style="width:32px;height:32px;border-radius:8px;background:rgba(255,255,255,0.04);display:flex;align-items:center;justify-content:center;color:rgb(247,248,252);">' +
                                svgIcon('icon-line-download-02', 16) +
                            '</div>' +
                            '<div class="qwen-chat-setting-content-item-label">Checking for updates...</div>' +
                        '</div>' +
                    '</div>';

                try {
                    var info = await window.__TAURI__.core.invoke('get_update_info');
                    if (info.available) {
                        content.innerHTML =
                            '<div style="' + cardStyle() + '">' +
                                '<div style="display:flex;align-items:flex-start;gap:16px;">' +
                                    '<div style="width:40px;height:40px;border-radius:10px;background:rgba(97,92,237,0.12);display:flex;align-items:center;justify-content:center;flex-shrink:0;color:rgb(247,248,252);">' +
                                        svgIcon('icon-line-download-02', 20) +
                                    '</div>' +
                                    '<div style="flex:1;min-width:0;">' +
                                        '<div class="qwen-chat-setting-content-item-label" style="font-size:15px;font-weight:600;margin-bottom:4px;">Update Available</div>' +
                                        '<div style="' + subtextStyle() + '">v' + info.latest_version + ' &middot; you are on v' + info.current_version + '</div>' +
                                    '</div>' +
                                '</div>' +
                                (info.release_notes ? '<div style="margin-top:16px;padding:12px 16px;background:rgba(255,255,255,0.03);border-radius:8px;font-size:13px;color:rgba(255,255,255,0.55);line-height:1.6;max-height:140px;overflow-y:auto;">' + info.release_notes.replace(/\n/g, '<br>') + '</div>' : '') +
                                '<div style="margin-top:20px;">' +
                                    '<button id="qwen-install-btn" style="' + btnPrimaryStyle() + '">Download &amp; Install</button>' +
                                '</div>' +
                            '</div>';
                        document.getElementById('qwen-install-btn').onclick = async function() {
                            startInstallUI();
                        };
                    } else {
                        content.innerHTML =
                            '<div style="' + cardStyle() + 'text-align:center;">' +
                                '<div style="' + iconCircleStyle('rgba(34,197,94,0.1)') + '">' +
"#;

pub const SETTINGS_SCRIPT_PART_4: &'static str = r#"                                    svgIcon('icon-line-check-01', 24) +
                                '</div>' +
                                '<div class="qwen-chat-setting-content-item-label" style="font-size:15px;font-weight:600;margin-bottom:4px;">You\'re up to date</div>' +
                                '<div style="' + subtextStyle() + 'margin-bottom:16px;">Running v' + info.current_version + '</div>' +
                                '<button id="qwen-check-btn" style="' + btnSecondaryStyle() + '">Check for Updates</button>' +
                            '</div>';
                        document.getElementById('qwen-check-btn').onclick = async function() {
                            var btn = document.getElementById('qwen-check-btn');
                            btn.textContent = 'Checking...';
                            btn.disabled = true;
                            btn.style.opacity = '0.6';
                            await checkForUpdatesUI();
                        };
                    }
                } catch(e) {
                    content.innerHTML =
                        '<div style="' + cardStyle() + '">' +
                            '<div style="display:flex;align-items:flex-start;gap:12px;">' +
                                '<div style="width:32px;height:32px;border-radius:8px;background:rgba(239,68,68,0.1);display:flex;align-items:center;justify-content:center;flex-shrink:0;color:rgb(247,248,252);">' +
                                    svgIcon('icon-line-alert-circle', 16) +
                                '</div>' +
                                '<div style="flex:1;">' +
                                    '<div style="font-size:14px;font-weight:500;color:rgb(239,68,68);margin-bottom:4px;">Could not check for updates</div>' +
                                    '<div style="' + subtextStyle() + 'margin-bottom:16px;">' + e + '</div>' +
                                    '<button id="qwen-check-retry-btn" style="' + btnSecondaryStyle() + '">Check Again</button>' +
                                '</div>' +
                            '</div>' +
                        '</div>';
                    document.getElementById('qwen-check-retry-btn').onclick = async function() {
                        checkForUpdatesUI();
                    };
                }
            }

            async function startInstallUI() {
                var content = document.getElementById('qwen-update-content');
                if (!content) return;

                content.innerHTML =
                    '<div style="' + cardStyle() + '">' +
                        '<div style="display:flex;align-items:flex-start;gap:16px;">' +
                            '<div style="width:40px;height:40px;border-radius:10px;background:rgba(97,92,237,0.12);display:flex;align-items:center;justify-content:center;flex-shrink:0;color:rgb(247,248,252);">' +
                                svgIcon('icon-line-download-02', 20) +
"#;

pub const SETTINGS_SCRIPT_PART_5: &'static str = r#"                            '</div>' +
                            '<div style="flex:1;min-width:0;">' +
                                '<div class="qwen-chat-setting-content-item-label" style="font-size:15px;font-weight:600;margin-bottom:4px;">Downloading Update</div>' +
                                '<div style="' + subtextStyle() + '" id="dl-status">Starting download...</div>' +
                            '</div>' +
                        '</div>' +
                        '<div style="' + progressBarStyle() + '"><div id="dl-bar" style="' + progressFillStyle(0) + '"></div></div>' +
                        '<div style="' + subtextStyle() + '" id="dl-bytes">0 / 0 MB</div>' +
                    '</div>';

                var unlisten = await window.__TAURI__.event.listen('update-progress', function(event) {
                    var data = event.payload;
                    var bar = document.getElementById('dl-bar');
                    var status = document.getElementById('dl-status');
                    var bytes = document.getElementById('dl-bytes');
                    if (bar) bar.style.width = data.progress + '%';
                    if (status) status.textContent = data.status;
                    if (bytes && data.downloaded) bytes.textContent = data.downloaded + ' / ' + data.total + ' MB';
                });

                try {
                    await window.__TAURI__.core.invoke('install_update_with_progress');
                    unlisten();

                    content.innerHTML =
                        '<div style="' + cardStyle() + 'text-align:center;">' +
                            '<div style="' + iconCircleStyle('rgba(34,197,94,0.1)') + '">' +
                                svgIcon('icon-line-check-01', 24) +
                            '</div>' +
                            '<div class="qwen-chat-setting-content-item-label" style="font-size:15px;font-weight:600;margin-bottom:4px;">Update Installed</div>' +
                            '<div style="' + subtextStyle() + 'margin-bottom:20px;">Restart the app to apply changes</div>' +
                            '<button id="qwen-restart-btn" style="' + btnPrimaryStyle() + '">Restart Now</button>' +
                        '</div>';
                    document.getElementById('qwen-restart-btn').onclick = async function() {
                        var btn = document.getElementById('qwen-restart-btn');
                        btn.textContent = 'Restarting...';
                        btn.disabled = true;
                        btn.style.opacity = '0.6';
                        await window.__TAURI__.core.invoke('restart_app');
                    };
                } catch(e) {
                    unlisten();
                    content.innerHTML =
                        '<div style="' + cardStyle() + '">' +
                            '<div style="display:flex;align-items:flex-start;gap:12px;">' +
"#;

pub const SETTINGS_SCRIPT_PART_6: &'static str = r#"                                '<div style="width:32px;height:32px;border-radius:8px;background:rgba(239,68,68,0.1);display:flex;align-items:center;justify-content:center;flex-shrink:0;color:rgb(247,248,252);">' +
                                    svgIcon('icon-line-alert-circle', 16) +
                                '</div>' +
                                '<div style="flex:1;">' +
                                    '<div style="font-size:14px;font-weight:500;color:rgb(239,68,68);margin-bottom:4px;">Update failed</div>' +
                                    '<div style="' + subtextStyle() + 'margin-bottom:16px;">' + e + '</div>' +
                                    '<button id="qwen-retry-btn" style="' + btnSecondaryStyle() + '">Retry</button>' +
                                '</div>' +
                            '</div>' +
                        '</div>';
                    document.getElementById('qwen-retry-btn').onclick = async function() {
                        startInstallUI();
                    };
                }
            }

            var checkInterval = setInterval(function() {
                if (window.location.href.indexOf('/settings') !== -1) {
                    injectUpdatesTab();
                }
            }, 500);

            window.addEventListener('popstate', function() {
                if (window.location.href.indexOf('/settings') !== -1) {
                    setTimeout(injectUpdatesTab, 300);
                }
            });

            if (window.location.href.indexOf('/settings') !== -1) {
                setTimeout(injectUpdatesTab, 500);
            }

            // Global update banner
            window.__TAURI__.event.listen('update-available', function(event) {
                if (document.getElementById('qwen-update-banner')) return;
                var data = event.payload;
                var style = document.createElement('style');
                style.id = 'qwen-banner-styles';
                style.textContent = '#qwen-banner-go:hover { background: rgb(117, 112, 257) !important; } #qwen-banner-dismiss:hover { background: rgba(255,255,255,0.08) !important; color: rgb(247,248,252) !important; } @keyframes bannerSlideIn { from { right: -500px; opacity: 0; } to { right: 16px; opacity: 1; } } @keyframes bannerFadeOut { from { right: 16px; opacity: 1; } to { right: -500px; opacity: 0; } } #qwen-update-banner { animation: bannerSlideIn 0.35s cubic-bezier(0.16, 1, 0.3, 1) forwards; } #qwen-update-banner.dismissing { animation: bannerFadeOut 0.25s ease forwards; }';
                document.head.appendChild(style);
                var banner = document.createElement('div');
                banner.id = 'qwen-update-banner';
"#;

pub const SETTINGS_SCRIPT_PART_7: &'static str = r#"                banner.style.cssText = 'position:fixed;top:16px;right:16px;z-index:9999;background:rgb(46,46,51);border:1px solid rgba(255,255,255,0.1);border-radius:12px;padding:14px 18px;display:flex;align-items:center;gap:14px;font-family:system-ui,ui-sans-serif,-apple-system,BlinkMacSystemFont,Inter,NotoSansHans,sans-serif;box-shadow:0 8px 32px rgba(0,0,0,0.4), 0 2px 8px rgba(0,0,0,0.2);max-width:480px;width:calc(100% - 32px);';
                banner.innerHTML = '<div style="width:32px;height:32px;border-radius:8px;background:rgba(97,92,237,0.15);display:flex;align-items:center;justify-content:center;flex-shrink:0;color:rgb(247,248,252);">' +
                    svgIcon('icon-line-download-02', 16) +
                '</div>' +
                '<div style="flex:1;min-width:0;"><div style="font-size:14px;font-weight:600;color:rgb(247,248,252);margin-bottom:2px;">Update ' + data.version + ' available</div>' +
                '<div style="font-size:12px;color:rgba(255,255,255,0.5);line-height:1.4;white-space:nowrap;overflow:hidden;text-overflow:ellipsis;">' + data.notes.substring(0, 100) + '</div></div>' +
                '<div style="display:flex;gap:8px;flex-shrink:0;">' +
                '<button id="qwen-banner-go" style="padding:7px 16px;background:rgb(97,92,237);color:rgb(247,248,252);border:none;border-radius:8px;font-size:13px;font-weight:500;cursor:pointer;height:32px;font-family:inherit;transition:background 0.15s ease;">View</button>' +
                '<button id="qwen-banner-dismiss" style="width:28px;height:28px;display:flex;align-items:center;justify-content:center;background:transparent;color:rgba(255,255,255,0.4);border:none;border-radius:6px;font-size:16px;cursor:pointer;transition:background 0.15s ease, color 0.15s ease;">&#x2715;</button></div>';
                document.body.appendChild(banner);
                document.getElementById('qwen-banner-go').addEventListener('click', function() {
                    var b = document.getElementById('qwen-update-banner');
                    if (b) { b.classList.add('dismissing'); setTimeout(function() { b.remove(); }, 250); }
                    window.location.href = 'https://chat.qwen.ai/settings';
                });
                document.getElementById('qwen-banner-dismiss').addEventListener('click', function() {
                    var b = document.getElementById('qwen-update-banner');
                    if (b) { b.classList.add('dismissing'); setTimeout(function() { b.remove(); var s = document.getElementById('qwen-banner-styles'); if (s) s.remove(); }, 250); }
                });
            });
        })();
    "#;

/// Every window: seeds the qwen-core MCP server entry on chat.qwen.ai pages (never on sign-in pages), keeping servers the user added.
pub open spec fn pre_load_script() -> Seq<char> {
    PRE_LOAD_SCRIPT@
}

/// Every window: Ctrl+wheel and Ctrl +/-/0 zoom.
pub open spec fn zoom_script() -> Seq<char> {
    ZOOM_SCRIPT@
}

/// Every window: the Updates tab of the settings page and the update banner.
pub open spec fn settings_script() -> Seq<char> {
    SETTINGS_SCRIPT_PART_1@ + SETTINGS_SCRIPT_PART_2@ + SETTINGS_SCRIPT_PART_3@ + SETTINGS_SCRIPT_PART_4@ + SETTINGS_SCRIPT_PART_5@ + SETTINGS_SCRIPT_PART_6@ + SETTINGS_SCRIPT_PART_7@
}

/// Appends the script of `pre_load_script` to `r`.
pub(crate) fn append_pre_load_script(r: &mut String)
    ensures
        final(r)@ == old(r)@ + pre_load_script(),
{
    r.append(PRE_LOAD_SCRIPT);
}

/// Appends the script of `zoom_script` to `r`.
pub(crate) fn append_zoom_script(r: &mut String)
    ensures
        final(r)@ == old(r)@ + zoom_script(),
{
    r.append(ZOOM_SCRIPT);
}

/// Appends the script of `settings_script` to `r`.
pub(crate) fn append_settings_script(r: &mut String)
    ensures
        final(r)@ == old(r)@ + settings_script(),
{
    r.append(SETTINGS_SCRIPT_PART_1);
    r.append(SETTINGS_SCRIPT_PART_2);
    r.append(SETTINGS_SCRIPT_PART_3);
    r.append(SETTINGS_SCRIPT_PART_4);
    r.append(SETTINGS_SCRIPT_PART_5);
    r.append(SETTINGS_SCRIPT_PART_6);
    r.append(SETTINGS_SCRIPT_PART_7);
}

} // verus!
