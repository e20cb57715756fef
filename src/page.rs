//! The landing page: a static HTML document that shows a few values of the
//! request it answers.

use vstd::prelude::*;
use crate::reply::{Reply, ReplyBody, STATUS_OK};

verus! {

/// The page up to the protocol of the request.
pub const PAGE_HEAD: &'static str = r#"
        <!DOCTYPE html>
        <html>
        <head>
            <meta charset="UTF-8">
            <title>From 200 to Render</title>
            <link rel="stylesheet" href="/static/style.css">
            <style>
                .request-details {
                    background-color: #e8f5e9;
                    padding: 15px;
                    border-radius: 5px;
                    margin: 20px 0;
                }
                .request-details h2 {
                    color: #2e7d32;
                    margin-top: 0;
                }
                .detail-item {
                    margin: 10px 0;
                }
                .detail-label {
                    font-weight: bold;
                    color: #1b5e20;
                }
                .dns-lookup {
                    margin-top: 20px;
                    padding: 15px;
                    background-color: #f5f5f5;
                    border-radius: 5px;
                }
                .dns-lookup input {
                    padding: 8px;
                    margin-right: 10px;
                    border: 1px solid #ddd;
                    border-radius: 4px;
                }
                .dns-lookup button {
                    padding: 8px 16px;
                    background-color: #2196f3;
                    color: white;
                    border: none;
                    border-radius: 4px;
                    cursor: pointer;
                }
                .dns-lookup button:hover {
                    background-color: #1976d2;
                }
                #dns-result {
                    margin-top: 15px;
                    white-space: pre-wrap;
                }
                .http-playground {
                    margin-top: 20px;
                    padding: 15px;
                    background-color: #fff3e0;
                    border-radius: 5px;
                }
                .http-playground h2 {
                    color: #e65100;
                    margin-top: 0;
                }
                .http-playground select, .http-playground input {
                    padding: 8px;
                    margin-right: 10px;
                    border: 1px solid #ddd;
                    border-radius: 4px;
                }
                .http-playground button {
                    padding: 8px 16px;
                    background-color: #ff9800;
                    color: white;
                    border: none;
                    border-radius: 4px;
                    cursor: pointer;
                }
                .http-playground button:hover {
                    background-color: #f57c00;
                }
                #http-result {
                    margin-top: 15px;
                    white-space: pre-wrap;
                    font-family: monospace;
                }
            </style>
            <script>
                async function lookupDomain() {
                    const domain = document.getElementById('domain-input').value;
                    const resultDiv = document.getElementById('dns-result');
                    
                    try {
                        const response = await fetch(`/dns-lookup?domain=${encodeURIComponent(domain)}`);
                        const data = await response.json();
                        resultDiv.textContent = JSON.stringify(data, null, 2);
                    } catch (error) {
                        resultDiv.textContent = `エラー: ${error.message}`;
                    }
                }

                async function sendRequest() {
                    const method = document.getElementById('http-method').value;
                    const statusCode = document.getElementById('status-code').value;
                    const message = document.getElementById('message-input').value;
                    const resultDiv = document.getElementById('http-result');
                    
                    try {
                        let url = method === 'STATUS' ? `/status/${statusCode}` : '/echo';
                        let options = {
                            method: method === 'STATUS' ? 'GET' : method,
                            headers: {
                                'Content-Type': 'application/json'
                            }
                        };
                        
                        if (['POST', 'PUT'].includes(method)) {
                            options.body = JSON.stringify({ message });
                        }
                        
                        const response = await fetch(url, options);
                        const data = await response.text();
                        
                        resultDiv.textContent = `Status: ${response.status} ${response.statusText}\n\nResponse:\n${data}`;
                    } catch (error) {
                        resultDiv.textContent = `エラー: ${error.message}`;
                    }
                }
            </script>
        </head>
        <body>
            <h1>Welcome to our HTTP Learning Journey!</h1>
            
            <div class="request-details">
                <h2>Your Request Details:</h2>
                <div class="detail-item">
                    <span class="detail-label">Protocol:</span> "#;

/// The page between the protocol and the host.
pub const PAGE_AFTER_SCHEME: &'static str = r#"
                </div>
                <div class="detail-item">
                    <span class="detail-label">Host:</span> "#;

/// The page between the host and the path.
pub const PAGE_AFTER_HOST: &'static str = r#"
                </div>
                <div class="detail-item">
                    <span class="detail-label">Path:</span> "#;

/// The page between the path and the method.
pub const PAGE_AFTER_PATH: &'static str = r#"
                </div>
                <div class="detail-item">
                    <span class="detail-label">Method:</span> "#;

/// The page between the method and the user agent.
pub const PAGE_AFTER_METHOD: &'static str = r#"
                </div>
                <div class="detail-item">
                    <span class="detail-label">User Agent:</span> "#;

/// The page after the user agent.
pub const PAGE_TAIL: &'static str = r#"
                </div>
            </div>

            <div class="dns-lookup">
                <h2>DNS Lookup Tool</h2>
                <p>ドメイン名からIPアドレスを解決してみよう：</p>
                <div>
                    <input type="text" id="domain-input" placeholder="example.com">
                    <button onclick="lookupDomain()">DNS Lookup</button>
                </div>
                <pre id="dns-result"></pre>
            </div>

            <div class="http-playground">
                <h2>HTTP Playground</h2>
                <p>HTTPメソッドとステータスコードを試してみよう：</p>
                <div>
                    <select id="http-method">
                        <option value="GET">GET</option>
                        <option value="POST">POST</option>
                        <option value="PUT">PUT</option>
                        <option value="DELETE">DELETE</option>
                        <option value="STATUS">Status Code</option>
                    </select>
                    <input type="number" id="status-code" placeholder="Status Code (200, 404, etc.)" value="200">
                    <input type="text" id="message-input" placeholder="Message for POST/PUT">
                    <button onclick="sendRequest()">Send Request</button>
                </div>
                <pre id="http-result"></pre>
            </div>

            <p>This page will help us understand:</p>
            <ul>
                <li>HTTP Request/Response cycle</li>
                <li>Status codes (like 200 OK)</li>
                <li>Browser rendering process</li>
                <li>DNS resolution process</li>
            </ul>
        </body>
        </html>
    "#;

/// The user agent as the page shows it: `Unknown` where the request names
/// none that can be shown as text.
pub open spec fn user_agent_text(user_agent: Option<String>) -> Seq<char> {
    match user_agent {
        Some(a) => a@,
        None => "Unknown"@,
    }
}

/// The landing page for a request with the given protocol, host, path,
/// method and user agent.
pub open spec fn page_text(
    scheme: Seq<char>,
    host: Seq<char>,
    path: Seq<char>,
    method: Seq<char>,
    user_agent: Option<String>,
) -> Seq<char> {
    PAGE_HEAD@ + scheme + PAGE_AFTER_SCHEME@ + host + PAGE_AFTER_HOST@ + path + PAGE_AFTER_PATH@
        + method + PAGE_AFTER_METHOD@ + user_agent_text(user_agent) + PAGE_TAIL@
}

/// Answers `GET /` with the landing page, showing the protocol, host, path,
/// method and user agent of the request. `user_agent` is `None` where the
/// request has no `User-Agent` header or its value cannot be shown as text.
pub fn hello(
    scheme: &str,
    host: &str,
    path: &str,
    method: &str,
    user_agent: Option<String>,
) -> (r: Reply)
    ensures
        r.status == 200,
        r.body matches ReplyBody::Html(page) && page@ == page_text(
            scheme@,
            host@,
            path@,
            method@,
            user_agent,
        ),
{
    let mut page = String::from_str(PAGE_HEAD);
    page.append(scheme);
    page.append(PAGE_AFTER_SCHEME);
    page.append(host);
    page.append(PAGE_AFTER_HOST);
    page.append(path);
    page.append(PAGE_AFTER_PATH);
    page.append(method);
    page.append(PAGE_AFTER_METHOD);
    match &user_agent {
        Some(a) => page.append(a.as_str()),
        None => page.append("Unknown"),
    }
    page.append(PAGE_TAIL);
    Reply { status: STATUS_OK, body: ReplyBody::Html(page) }
}

} // verus!
