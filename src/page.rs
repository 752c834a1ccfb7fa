use vstd::prelude::*;

verus! {

/// The page up to the report content: document head, styles, banner.
pub const PAGE_HEAD: &'static str = "<!DOCTYPE html>
<html lang=\"en\">
<head>
    <meta charset=\"UTF-8\">
    <meta name=\"viewport\" content=\"width=device-width, initial-scale=1.0\">
    <title>Byps Scan Report</title>
    <style>
        * {
            margin: 0;
            padding: 0;
            box-sizing: border-box;
        }
        body {
            font-family: 'Segoe UI', Tahoma, Geneva, Verdana, sans-serif;
            background: linear-gradient(135deg, #667eea 0%, #764ba2 100%);
            padding: 20px;
            min-height: 100vh;
        }
        .container {
            max-width: 1200px;
            margin: 0 auto;
            background: white;
            border-radius: 10px;
            box-shadow: 0 10px 40px rgba(0,0,0,0.2);
            overflow: hidden;
        }
        .header {
            background: linear-gradient(135deg, #667eea 0%, #764ba2 100%);
            color: white;
            padding: 30px;
            text-align: center;
        }
        .header h1 {
            font-size: 2.5em;
            margin-bottom: 10px;
        }
        .header p {
            font-size: 1.1em;
            opacity: 0.9;
        }
        .content {
            padding: 30px;
        }
        .section {
            margin-bottom: 30px;
        }
        .section h2 {
            color: #667eea;
            border-bottom: 2px solid #667eea;
            padding-bottom: 10px;
            margin-bottom: 20px;
        }
        .info-grid {
            display: grid;
            grid-template-columns: repeat(auto-fit, minmax(250px, 1fr));
            gap: 20px;
            margin-bottom: 20px;
        }
        .info-card {
            background: #f8f9fa;
            padding: 15px;
            border-radius: 8px;
            border-left: 4px solid #667eea;
        }
        .info-card .label {
            font-weight: bold;
            color: #555;
            margin-bottom: 5px;
        }
        .info-card .value {
            color: #333;
            word-break: break-all;
        }
        table {
            width: 100%;
            border-collapse: collapse;
            margin-top: 15px;
        }
        th {
            background: #667eea;
            color: white;
            padding: 12px;
            text-align: left;
            font-weight: 600;
        }
        td {
            padding: 12px;
            border-bottom: 1px solid #e0e0e0;
        }
        tr:hover {
            background: #f5f5f5;
        }
        .status-success {
            color: #28a745;
            font-weight: bold;
        }
        .status-error {
            color: #dc3545;
            font-weight: bold;
        }
        .status-unknown {
            color: #6c757d;
            font-weight: bold;
        }
        .footer {
            background: #f8f9fa;
            padding: 20px;
            text-align: center;
            color: #666;
            border-top: 1px solid #e0e0e0;
        }
        .timestamp {
            font-size: 0.9em;
            color: #888;
        }
        code {
            background: #f4f4f4;
            padding: 2px 6px;
            border-radius: 3px;
            font-family: 'Courier New', monospace;
        }
    </style>
</head>
<body>
    <div class=\"container\">
        <div class=\"header\">
            <h1>\u{1f513} Byps Scan Report</h1>
            <p>WAF Bypass Testing Results</p>
        </div>
        <div class=\"content\">
";

/// The page after the report content.
pub const PAGE_FOOT: &'static str = "        </div>
        <div class=\"footer\">
            <p>Generated by <strong>Byps</strong> - WAF Bypass Testing Tool</p>
            <p class=\"timestamp\">Report generated at: <span id=\"reportTime\"></span></p>
        </div>
    </div>
    <script>
        document.getElementById('reportTime').textContent = new Date().toLocaleString();
    </script>
</body>
</html>
";

pub const SUMMARY_OPEN: &'static str = "            <div class=\"section\">\n                <h2>Summary</h2>\n                <div class=\"info-grid\">\n";

pub const EXTRA_OPEN: &'static str = "            <div class=\"section\">\n                <h2>Additional Information</h2>\n                <div class=\"info-grid\">\n";

pub const GRID_CLOSE: &'static str = "                </div>\n            </div>\n";

pub const CARD_OPEN: &'static str = "                    <div class=\"info-card\">\n                        <div class=\"label\">";

pub const CARD_MID: &'static str = "</div>\n                        <div class=\"value\">";

pub const CARD_CLOSE: &'static str = "</div>\n                    </div>\n";

pub const TABLE_OPEN: &'static str = "            <div class=\"section\">\n                <h2>Bypass Variations</h2>\n                <table>\n                    <thead>\n                        <tr>\n                            <th>#</th>\n                            <th>Variation</th>\n                            <th>Technique</th>\n                            <th>Status</th>\n                        </tr>\n                    </thead>\n                    <tbody>\n";

pub const TABLE_CLOSE: &'static str = "                    </tbody>\n                </table>\n            </div>\n";

pub const ROW_OPEN: &'static str = "                        <tr>\n                            <td>";

pub const ROW_URL: &'static str = "</td>\n                            <td><code>";

pub const ROW_TECHNIQUE: &'static str = "</code></td>\n                            <td>";

pub const ROW_CLASS: &'static str = "</td>\n                            <td class=\"";

pub const ROW_STATUS: &'static str = "\">";

pub const ROW_CLOSE: &'static str = "</td>\n                        </tr>\n";
} // verus!
